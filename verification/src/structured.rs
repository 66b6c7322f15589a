use vstd::prelude::*;

verus! {

// The outside format parsers are deterministic: what each lookup
// returns is a function of the document text and the keys alone, so
// each result is given a name that the wrapper's contract applies.
// Nothing else is assumed of the outside crates.

/// The string at table `k1`, key `k2` of a TOML document, if the
/// document parses and such a string stands there.
pub uninterp spec fn toml_str_at2(s: Seq<char>, k1: Seq<char>, k2: Seq<char>) -> Option<Seq<char>>;

/// The string at top-level key `k` of a TOML document.
pub uninterp spec fn toml_str_at1(s: Seq<char>, k: Seq<char>) -> Option<Seq<char>>;

/// Whether a TOML document parses and holds any value at `k1.k2`.
pub uninterp spec fn toml_present_at2(s: Seq<char>, k1: Seq<char>, k2: Seq<char>) -> bool;

/// Whether a TOML document parses and holds any value at top-level `k`.
pub uninterp spec fn toml_present_at1(s: Seq<char>, k: Seq<char>) -> bool;

/// The string at top-level key `k` of a JSON document.
pub uninterp spec fn json_str_at1(s: Seq<char>, k: Seq<char>) -> Option<Seq<char>>;

/// The string at key `k2` inside the object at top-level key `k1` of
/// a JSON document.
pub uninterp spec fn json_str_at2(s: Seq<char>, k1: Seq<char>, k2: Seq<char>) -> Option<Seq<char>>;

/// Whether a JSON document parses and holds any value at top-level `k`.
pub uninterp spec fn json_present_at1(s: Seq<char>, k: Seq<char>) -> bool;

/// The keys, in sorted order, of the object at top-level key `k` of a
/// JSON document; nothing when `k` is absent or not an object.
pub uninterp spec fn json_keys_at1(s: Seq<char>, k: Seq<char>) -> Option<Seq<Seq<char>>>;

/// The string-valued entries, in key order, of the object at
/// top-level key `k` of a JSON document.
pub uninterp spec fn json_str_entries_at1(s: Seq<char>, k: Seq<char>) -> Option<
    Seq<(Seq<char>, Seq<char>)>,
>;

/// The string keys, in document order, of the mapping at top-level
/// key `k` of a YAML document.
pub uninterp spec fn yaml_keys_at1(s: Seq<char>, k: Seq<char>) -> Option<Seq<Seq<char>>>;

/// Relies on `toml::from_str`, `toml::Value::get` and
/// `toml::Value::as_str`: reads the string at `k1.k2`.
#[verifier::external_body]
pub fn toml_lookup_str2(content: &str, k1: &str, k2: &str) -> (r: Option<String>)
    ensures
        match r {
            Some(v) => toml_str_at2(content@, k1@, k2@) == Some(v@),
            None => toml_str_at2(content@, k1@, k2@) is None,
        },
{
    let doc: toml::Value = match toml::from_str(content) { Ok(d) => d, Err(_) => return None };
    let t = match doc.get(k1) { Some(t) => t, None => return None };
    let v = match t.get(k2) { Some(v) => v, None => return None };
    v.as_str().map(|s| s.to_string())
}

/// Relies on `toml::from_str`, `toml::Value::get` and
/// `toml::Value::as_str`: reads the string at top-level `k`.
#[verifier::external_body]
pub fn toml_lookup_str1(content: &str, k: &str) -> (r: Option<String>)
    ensures
        match r {
            Some(v) => toml_str_at1(content@, k@) == Some(v@),
            None => toml_str_at1(content@, k@) is None,
        },
{
    let doc: toml::Value = match toml::from_str(content) { Ok(d) => d, Err(_) => return None };
    let v = match doc.get(k) { Some(v) => v, None => return None };
    v.as_str().map(|s| s.to_string())
}

/// Relies on `toml::from_str` and `toml::Value::get`: whether any
/// value stands at `k1.k2`.
#[verifier::external_body]
pub fn toml_has2(content: &str, k1: &str, k2: &str) -> (r: bool)
    ensures
        r == toml_present_at2(content@, k1@, k2@),
{
    match toml::from_str::<toml::Value>(content) {
        Ok(doc) => match doc.get(k1) {
            Some(t) => t.get(k2).is_some(),
            None => false,
        },
        Err(_) => false,
    }
}

/// Relies on `toml::from_str` and `toml::Value::get`: whether any
/// value stands at top-level `k`.
#[verifier::external_body]
pub fn toml_has1(content: &str, k: &str) -> (r: bool)
    ensures
        r == toml_present_at1(content@, k@),
{
    match toml::from_str::<toml::Value>(content) {
        Ok(doc) => doc.get(k).is_some(),
        Err(_) => false,
    }
}

/// Relies on `serde_json::from_str`, `serde_json::Value::get` and
/// `serde_json::Value::as_str`: reads the string at top-level `k`.
#[verifier::external_body]
pub fn json_lookup_str1(content: &str, k: &str) -> (r: Option<String>)
    ensures
        match r {
            Some(v) => json_str_at1(content@, k@) == Some(v@),
            None => json_str_at1(content@, k@) is None,
        },
{
    let doc: serde_json::Value = match serde_json::from_str(content) { Ok(d) => d, Err(_) => return None };
    let v = match doc.get(k) { Some(v) => v, None => return None };
    v.as_str().map(|s| s.to_string())
}

/// Relies on `serde_json::from_str`, `serde_json::Value::get` and
/// `serde_json::Value::as_str`: reads the string at `k1.k2`.
#[verifier::external_body]
pub fn json_lookup_str2(content: &str, k1: &str, k2: &str) -> (r: Option<String>)
    ensures
        match r {
            Some(v) => json_str_at2(content@, k1@, k2@) == Some(v@),
            None => json_str_at2(content@, k1@, k2@) is None,
        },
{
    let doc: serde_json::Value = match serde_json::from_str(content) { Ok(d) => d, Err(_) => return None };
    let t = match doc.get(k1) { Some(t) => t, None => return None };
    let v = match t.get(k2) { Some(v) => v, None => return None };
    v.as_str().map(|s| s.to_string())
}

/// Relies on `serde_json::from_str` and `serde_json::Value::get`:
/// whether any value stands at top-level `k`.
#[verifier::external_body]
pub fn json_has1(content: &str, k: &str) -> (r: bool)
    ensures
        r == json_present_at1(content@, k@),
{
    match serde_json::from_str::<serde_json::Value>(content) {
        Ok(doc) => doc.get(k).is_some(),
        Err(_) => false,
    }
}

/// Relies on `serde_json::from_str`, `serde_json::Value::get` and
/// `serde_json::Value::as_object`: the keys of the object at `k`, in
/// the sorted order the crate's map iterates them.
#[verifier::external_body]
pub fn json_object_keys1(content: &str, k: &str) -> (r: Option<Vec<String>>)
    ensures
        match r {
            Some(v) => json_keys_at1(content@, k@) == Some(
                v@.map_values(|s: String| s@),
            ),
            None => json_keys_at1(content@, k@) is None,
        },
{
    let doc: serde_json::Value = match serde_json::from_str(content) { Ok(d) => d, Err(_) => return None };
    let v = match doc.get(k) { Some(v) => v, None => return None };
    let obj = match v.as_object() { Some(m) => m, None => return None };
    let mut out: Vec<String> = Vec::new();
    for key in obj.keys() {
        out.push(key.clone());
    }
    Some(out)
}

/// Relies on `serde_json::from_str`, `serde_json::Value::get`,
/// `serde_json::Value::as_object` and `serde_json::Value::as_str`:
/// the string-valued entries of the object at `k`, in key order.
#[verifier::external_body]
pub fn json_string_entries1(content: &str, k: &str) -> (r: Option<Vec<(String, String)>>)
    ensures
        match r {
            Some(v) => json_str_entries_at1(content@, k@) == Some(
                v@.map_values(|p: (String, String)| (p.0@, p.1@)),
            ),
            None => json_str_entries_at1(content@, k@) is None,
        },
{
    let doc: serde_json::Value = match serde_json::from_str(content) { Ok(d) => d, Err(_) => return None };
    let v = match doc.get(k) { Some(v) => v, None => return None };
    let obj = match v.as_object() { Some(m) => m, None => return None };
    let mut out: Vec<(String, String)> = Vec::new();
    for (key, val) in obj.iter() {
        if let Some(s) = val.as_str() {
            out.push((key.clone(), s.to_string()));
        }
    }
    Some(out)
}

/// Relies on `serde_yaml::from_str`, `serde_yaml::Value::get`,
/// `serde_yaml::Value::as_mapping` and `serde_yaml::Value::as_str`:
/// the string keys of the mapping at `k`, in document order.
#[verifier::external_body]
pub fn yaml_mapping_keys1(content: &str, k: &str) -> (r: Option<Vec<String>>)
    ensures
        match r {
            Some(v) => yaml_keys_at1(content@, k@) == Some(
                v@.map_values(|s: String| s@),
            ),
            None => yaml_keys_at1(content@, k@) is None,
        },
{
    let doc: serde_yaml::Value = match serde_yaml::from_str(content) { Ok(d) => d, Err(_) => return None };
    let v = match doc.get(k) { Some(v) => v, None => return None };
    let m = match v.as_mapping() { Some(m) => m, None => return None };
    let mut out: Vec<String> = Vec::new();
    for (key, _val) in m.iter() {
        if let Some(s) = key.as_str() {
            out.push(s.to_string());
        }
    }
    Some(out)
}

} // verus!
