//! Cursor session mapping files (`.cursor/lazytree-sessions/<id>.json`):
//! what `lazytree` reports of each one it reads.
use vstd::prelude::*;
use crate::doctor::{json_root_field, opt_str_owned, parse_mapping_root};

verus! {

/// The JSON text `serde_json` writes for the mapping `raw` once annotated:
/// when `raw` parses to a JSON object, with the member `mapping_path` set to
/// `path` and, when `root_exists` is given, the member `root_exists` set to
/// it; none when `raw` is not JSON.
pub uninterp spec fn annotated_mapping(raw: Seq<char>, path: Seq<char>, root_exists: Option<bool>) -> Option<Seq<char>>;

/// `serde_json::from_str::<serde_json::Value>` on `raw`; when that is an
/// object, `Map::insert` of `"mapping_path"` (a string) and, when given, of
/// `"root_exists"` (a bool); then `Value::to_string`. Claimed: the result is
/// `annotated_mapping` of the arguments. The maps are `BTreeMap`s here (no
/// `preserve_order`), so the text depends on the arguments alone; what it
/// is for given arguments is left to `serde_json`.
#[verifier::external_body]
fn annotate_mapping(raw: &str, mapping_path: &str, root_exists: Option<bool>) -> (r: Option<String>)
    ensures
        opt_str_owned(r) == annotated_mapping(raw@, mapping_path@, root_exists),
{
    let mut v: serde_json::Value = match serde_json::from_str(raw) {
        Ok(v) => v,
        Err(_) => return None,
    };
    if let Some(obj) = v.as_object_mut() {
        obj.insert("mapping_path".to_string(), serde_json::Value::String(mapping_path.to_string()));
        if let Some(b) = root_exists {
            obj.insert("root_exists".to_string(), serde_json::Value::Bool(b));
        }
    }
    Some(v.to_string())
}

/// The root the mapping `raw` names: its `"root"` member, when `raw` is a
/// JSON object whose `"root"` is a string.
pub fn mapping_root(raw: &str) -> (r: Option<String>)
    ensures
        opt_str_owned(r) == json_root_field(raw@),
{
    parse_mapping_root(raw)
}

/// The mapping `raw`, read from `mapping_path`, as reported: annotated with
/// its path and, when it names a root (`mapping_root`), with whether that
/// root is a directory (`root_is_dir`, asked of that root by the caller).
/// None when `raw` is not JSON.
pub fn report_mapping(raw: &str, mapping_path: &str, root_is_dir: bool) -> (r: Option<String>)
    ensures
        opt_str_owned(r) == annotated_mapping(
            raw@,
            mapping_path@,
            if json_root_field(raw@) is Some { Some(root_is_dir) } else { None },
        ),
{
    let root = parse_mapping_root(raw);
    let root_exists = match root {
        Some(_) => Some(root_is_dir),
        None => None,
    };
    annotate_mapping(raw, mapping_path, root_exists)
}

} // verus!
