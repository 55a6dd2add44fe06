use vstd::prelude::*;

use crate::json::JsonVal;
use crate::json::as_array;
use crate::json::as_str;
use crate::json::keys_distinct;
use crate::json::lemma_obj_lookup_at;
use crate::json::obj_lookup;
use crate::json::object_field;
use crate::json::object_keys;
use crate::json::value_model;

verus! {

/// The metadata field whose shape did not match the expected schema.
#[derive(Debug, Clone, Copy, PartialEq, Eq, Structural)]
pub enum MetaField {
    /// The document's top level: not a keyed mapping, or one with no keys.
    TopLevel,
    /// `libsource_dirs`: missing, or not an array of strings.
    LibsourceDirs,
    /// `defines`: missing, or not an array of strings.
    Defines,
    /// `includes`: missing, not a mapping, or a group is not an array of strings.
    Includes,
}

/// Why a metadata-to-flags run aborted. Every failure is fatal to the run:
/// the caller gets the error instead of a partially configured builder.
#[derive(Debug, Clone, Copy, PartialEq, Eq, Structural)]
pub enum PioError {
    /// The build tool could not be spawned at all.
    LaunchFailed,
    /// The tool's captured output was not valid text.
    DecodeFailed,
    /// The captured text was not well-formed JSON.
    ParseFailed,
    /// The document parsed, but a field had the wrong shape.
    ShapeMismatch(MetaField),
}

/// The fields of one environment's metadata that the adapter consumes, as
/// mathematical values. Include groups keep the document's own order.
pub struct EnvMetaSpec {
    pub libsource_dirs: Seq<Seq<char>>,
    pub defines: Seq<Seq<char>>,
    pub include_groups: Seq<(Seq<char>, Seq<Seq<char>>)>,
}

/// The strings of an array value: `Some` exactly when `j` is an array whose
/// elements are all strings.
pub open spec fn str_seq_of(j: JsonVal) -> Option<Seq<Seq<char>>> {
    match j {
        JsonVal::Arr(elems) => if forall|i: int| 0 <= i < elems.len() ==> (#[trigger] elems[i]) is Str {
            Some(elems.map_values(|e: JsonVal| e->Str_0))
        } else {
            None
        },
        _ => None,
    }
}

/// The value under `key` when `env` is an object that has that key.
pub open spec fn field_of(env: JsonVal, key: Seq<char>) -> Option<JsonVal> {
    match env {
        JsonVal::Obj(entries) => obj_lookup(entries, key),
        _ => None,
    }
}

/// The field `key` of `env` read as an array of strings.
pub open spec fn str_list_field(env: JsonVal, key: Seq<char>) -> Option<Seq<Seq<char>>> {
    match field_of(env, key) {
        Some(j) => str_seq_of(j),
        None => None,
    }
}

/// The include groups of a value: `Some` exactly when `j` is an object each
/// of whose values is an array of strings, keeping the document's group order.
pub open spec fn include_groups_of(j: JsonVal) -> Option<Seq<(Seq<char>, Seq<Seq<char>>)>> {
    match j {
        JsonVal::Obj(entries) => if forall|i: int|
            0 <= i < entries.len() ==> str_seq_of((#[trigger] entries[i]).1) is Some {
            Some(entries.map_values(|e: (Seq<char>, JsonVal)| (e.0, str_seq_of(e.1)->Some_0)))
        } else {
            None
        },
        _ => None,
    }
}

/// The field `key` of `env` read as a mapping from group name to directories.
pub open spec fn include_field(env: JsonVal, key: Seq<char>) -> Option<
    Seq<(Seq<char>, Seq<Seq<char>>)>,
> {
    match field_of(env, key) {
        Some(j) => include_groups_of(j),
        None => None,
    }
}

/// The consumed metadata of one environment value, or the first field whose
/// shape is wrong, checked in the order the fields are applied.
pub open spec fn env_meta_of(env: JsonVal) -> Result<EnvMetaSpec, MetaField> {
    if str_list_field(env, "libsource_dirs"@) is None {
        Err(MetaField::LibsourceDirs)
    } else if str_list_field(env, "defines"@) is None {
        Err(MetaField::Defines)
    } else if include_field(env, "includes"@) is None {
        Err(MetaField::Includes)
    } else {
        Ok(
            EnvMetaSpec {
                libsource_dirs: str_list_field(env, "libsource_dirs"@)->Some_0,
                defines: str_list_field(env, "defines"@)->Some_0,
                include_groups: include_field(env, "includes"@)->Some_0,
            },
        )
    }
}

/// The selected environment: the first entry of the document's top-level
/// mapping, `None` when the top level is not a mapping or has no keys.
pub open spec fn doc_env(doc: JsonVal) -> Option<(Seq<char>, JsonVal)> {
    match doc {
        JsonVal::Obj(entries) => if entries.len() > 0 {
            Some(entries[0])
        } else {
            None
        },
        _ => None,
    }
}

/// The consumed metadata of one environment, as plain values.
pub struct EnvMetadata {
    pub libsource_dirs: Vec<String>,
    pub defines: Vec<String>,
    pub include_groups: Vec<(String, Vec<String>)>,
}

/// The mathematical value of a vector of named groups.
pub open spec fn groups_view(g: Seq<(String, Vec<String>)>) -> Seq<(Seq<char>, Seq<Seq<char>>)> {
    g.map_values(|e: (String, Vec<String>)| (e.0@, e.1.deep_view()))
}

impl View for EnvMetadata {
    type V = EnvMetaSpec;

    open spec fn view(&self) -> EnvMetaSpec {
        EnvMetaSpec {
            libsource_dirs: self.libsource_dirs.deep_view(),
            defines: self.defines.deep_view(),
            include_groups: groups_view(self.include_groups@),
        }
    }
}

/// Reads an array-of-strings value into a vector, `None` exactly where the
/// shape is wrong.
fn string_list(v: &serde_json::Value) -> (r: Option<Vec<String>>)
    ensures
        r is Some <==> str_seq_of(value_model(*v)) is Some,
        r is Some ==> r->Some_0.deep_view() == str_seq_of(value_model(*v))->Some_0,
{
    let elems = match as_array(v) {
        Some(elems) => elems,
        None => {
            return None;
        },
    };
    let ghost model = value_model(*v)->Arr_0;
    let mut out: Vec<String> = Vec::new();
    let mut i: usize = 0;
    while i < elems.len()
        invariant
            i <= elems.len(),
            value_model(*v) is Arr,
            model == value_model(*v)->Arr_0,
            elems@.len() == model.len(),
            forall|k: int| 0 <= k < model.len() ==> #[trigger] value_model(elems@[k]) == model[k],
            out@.len() == i,
            forall|k: int| 0 <= k < i ==> (#[trigger] model[k]) is Str,
            forall|k: int| 0 <= k < i ==> #[trigger] out@[k]@ == model[k]->Str_0,
        decreases elems.len() - i,
    {
        let s = match as_str(&elems[i]) {
            Some(s) => s,
            None => {
                proof {
                    assert(!((value_model(*v)->Arr_0)[i as int] is Str));
                    assert(str_seq_of(value_model(*v)) is None);
                }
                return None;
            },
        };
        out.push(s.to_owned());
        i += 1;
    }
    proof {
        let strs = str_seq_of(value_model(*v))->Some_0;
        assert(out.deep_view() =~= strs);
    }
    Some(out)
}

/// Reads a mapping from group name to array of strings, in the document's
/// group order; `None` exactly where the shape is wrong.
fn group_list(v: &serde_json::Value) -> (r: Option<Vec<(String, Vec<String>)>>)
    ensures
        r is Some <==> include_groups_of(value_model(*v)) is Some,
        r is Some ==> groups_view(r->Some_0@) == include_groups_of(value_model(*v))->Some_0,
{
    let keys = match object_keys(v) {
        Some(keys) => keys,
        None => {
            return None;
        },
    };
    let ghost entries = value_model(*v)->Obj_0;
    proof {
        assert(keys.deep_view().len() == keys@.len());
        assert(entries.map_values(|e: (Seq<char>, JsonVal)| e.0).len() == entries.len());
    }
    let mut out: Vec<(String, Vec<String>)> = Vec::new();
    let mut i: usize = 0;
    while i < keys.len()
        invariant
            i <= keys.len(),
            value_model(*v) is Obj,
            entries == value_model(*v)->Obj_0,
            keys.deep_view() == entries.map_values(|e: (Seq<char>, JsonVal)| e.0),
            keys@.len() == entries.len(),
            keys_distinct(entries),
            out@.len() == i,
            forall|k: int| 0 <= k < i ==> str_seq_of((#[trigger] entries[k]).1) is Some,
            forall|k: int|
                0 <= k < i ==> (#[trigger] out@[k]).0@ == entries[k].0 && out@[k].1.deep_view()
                    == str_seq_of(entries[k].1)->Some_0,
        decreases keys.len() - i,
    {
        proof {
            assert(keys.deep_view()[i as int] == entries[i as int].0);
            lemma_obj_lookup_at(entries, i as int);
        }
        let key = &keys[i];
        let field = match object_field(v, key.as_str()) {
            Some(field) => field,
            None => {
                proof {
                    assert(false);
                }
                return None;
            },
        };
        let dirs = match string_list(field) {
            Some(dirs) => dirs,
            None => {
                proof {
                    assert(str_seq_of(entries[i as int].1) is None);
                    assert(include_groups_of(value_model(*v)) is None);
                }
                return None;
            },
        };
        out.push((key.clone(), dirs));
        i += 1;
    }
    proof {
        assert(include_groups_of(value_model(*v)) is Some);
        let groups = include_groups_of(value_model(*v))->Some_0;
        assert(groups_view(out@) =~= groups);
    }
    Some(out)
}

/// Reads the consumed fields of one environment value, or reports the first
/// field whose shape does not match the schema, in application order.
pub fn env_metadata(env: &serde_json::Value) -> (r: Result<EnvMetadata, MetaField>)
    ensures
        r is Ok <==> env_meta_of(value_model(*env)) is Ok,
        r is Ok ==> r->Ok_0@ == env_meta_of(value_model(*env))->Ok_0,
        r is Err ==> r->Err_0 == env_meta_of(value_model(*env))->Err_0,
{
    let libsource_dirs = match read_str_list_field(env, "libsource_dirs") {
        Some(libsource_dirs) => libsource_dirs,
        None => {
            return Err(MetaField::LibsourceDirs);
        },
    };
    let defines = match read_str_list_field(env, "defines") {
        Some(defines) => defines,
        None => {
            return Err(MetaField::Defines);
        },
    };
    let includes_field = match object_field(env, "includes") {
        Some(includes_field) => includes_field,
        None => {
            return Err(MetaField::Includes);
        },
    };
    let include_groups = match group_list(includes_field) {
        Some(include_groups) => include_groups,
        None => {
            return Err(MetaField::Includes);
        },
    };
    let meta = EnvMetadata { libsource_dirs, defines, include_groups };
    proof {
        assert(meta@ =~= env_meta_of(value_model(*env))->Ok_0);
    }
    Ok(meta)
}

/// Reads the field `key` of `env` as an array of strings.
fn read_str_list_field(env: &serde_json::Value, key: &str) -> (r: Option<Vec<String>>)
    ensures
        r is Some <==> str_list_field(value_model(*env), key@) is Some,
        r is Some ==> r->Some_0.deep_view() == str_list_field(value_model(*env), key@)->Some_0,
{
    match object_field(env, key) {
        Some(field) => string_list(field),
        None => None,
    }
}

/// Selects the target environment: the first key of the document's top-level
/// mapping, with that key's value. A document whose top level is not a keyed
/// mapping, or has no keys, is an invalid project configuration.
pub fn select_env<'a>(doc: &'a serde_json::Value) -> (r: Result<
    (String, &'a serde_json::Value),
    PioError,
>)
    ensures
        r is Ok <==> doc_env(value_model(*doc)) is Some,
        r is Ok ==> r->Ok_0.0@ == doc_env(value_model(*doc))->Some_0.0,
        r is Ok ==> value_model(*r->Ok_0.1) == doc_env(value_model(*doc))->Some_0.1,
        r is Err ==> r->Err_0 == PioError::ShapeMismatch(MetaField::TopLevel),
{
    let keys = match object_keys(doc) {
        Some(keys) => keys,
        None => {
            return Err(PioError::ShapeMismatch(MetaField::TopLevel));
        },
    };
    let ghost entries = value_model(*doc)->Obj_0;
    proof {
        assert(keys.deep_view().len() == keys@.len());
        assert(entries.map_values(|e: (Seq<char>, JsonVal)| e.0).len() == entries.len());
    }
    if keys.len() == 0 {
        proof {
            assert(entries.len() == 0);
        }
        return Err(PioError::ShapeMismatch(MetaField::TopLevel));
    }
    proof {
        assert(keys.deep_view()[0] == entries[0].0);
        lemma_obj_lookup_at(entries, 0);
    }
    let name = &keys[0];
    match object_field(doc, name.as_str()) {
        Some(env) => Ok((name.clone(), env)),
        None => {
            proof {
                assert(false);
            }
            Err(PioError::ShapeMismatch(MetaField::TopLevel))
        },
    }
}

} // verus!
