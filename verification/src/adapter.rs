use vstd::prelude::*;

use crate::ArgBuilder;
use crate::json::JsonVal;
use crate::json::parse_value;
use crate::json::parsed_json;
use crate::json::value_model;
use crate::meta::EnvMetaSpec;
use crate::meta::EnvMetadata;
use crate::meta::MetaField;
use crate::meta::PioError;
use crate::meta::doc_env;
use crate::meta::env_meta_of;
use crate::meta::env_metadata;
use crate::meta::groups_view;
use crate::meta::select_env;
use vstd::string::StringExecFns;

verus! {

/// The language-selection arguments: present exactly for C++ input.
pub open spec fn lang_args(is_cpp: bool) -> Seq<Seq<char>> {
    if is_cpp {
        seq!["-x"@, "c++"@]
    } else {
        Seq::<Seq<char>>::empty()
    }
}

/// The target-triple argument pair, appended unconditionally.
pub open spec fn target_args(target: Seq<char>) -> Seq<Seq<char>> {
    seq!["-target"@, target]
}

/// Each item turned into one argument by prepending `prefix`.
pub open spec fn prefixed(prefix: Seq<char>, items: Seq<Seq<char>>) -> Seq<Seq<char>> {
    items.map_values(|s: Seq<char>| prefix + s)
}

/// The include-path arguments of all groups, group by group in the
/// document's own order.
pub open spec fn include_args(groups: Seq<(Seq<char>, Seq<Seq<char>>)>) -> Seq<Seq<char>> {
    groups.map_values(|g: (Seq<char>, Seq<Seq<char>>)| prefixed("-I"@, g.1)).flatten()
}

/// The arguments one environment's metadata contributes, in the fixed order
/// the schema fields are applied: library source directories, then defines,
/// then include groups.
pub open spec fn meta_args(m: EnvMetaSpec) -> Seq<Seq<char>> {
    prefixed("-I"@, m.libsource_dirs) + prefixed("-D"@, m.defines) + include_args(m.include_groups)
}

/// What a well-shaped document contributes: the language and target
/// arguments, then the first environment's metadata arguments; or the error
/// the document's shape forces.
pub open spec fn adapter_args(doc: JsonVal, is_cpp: bool, target: Seq<char>) -> Result<
    Seq<Seq<char>>,
    PioError,
> {
    match doc_env(doc) {
        None => Err(PioError::ShapeMismatch(MetaField::TopLevel)),
        Some(env) => match env_meta_of(env.1) {
            Err(field) => Err(PioError::ShapeMismatch(field)),
            Ok(m) => Ok(lang_args(is_cpp) + target_args(target) + meta_args(m)),
        },
    }
}

/// The whole run as a function of the captured text and the flags alone.
pub open spec fn applied_args(
    parsed: Option<JsonVal>,
    is_cpp: bool,
    target: Seq<char>,
) -> Result<Seq<Seq<char>>, PioError> {
    match parsed {
        None => Err(PioError::ParseFailed),
        Some(doc) => adapter_args(doc, is_cpp, target),
    }
}

/// Parses the tool's captured output, mapping a parser failure to the run's
/// own error vocabulary.
pub fn parse_metadata(s: &str) -> (r: Result<serde_json::Value, PioError>)
    ensures
        r is Ok <==> parsed_json(s@) is Some,
        r is Ok ==> value_model(r->Ok_0) == parsed_json(s@)->Some_0,
        r is Err ==> r->Err_0 == PioError::ParseFailed,
{
    match parse_value(s) {
        Ok(v) => Ok(v),
        Err(_) => Err(PioError::ParseFailed),
    }
}

/// The arguments the build tool is invoked with to emit project metadata in
/// machine-readable form.
pub fn metadata_invocation_args() -> (r: Vec<String>)
    ensures
        r.deep_view() == seq!["project"@, "metadata"@, "--json-output"@],
{
    let mut v: Vec<String> = Vec::new();
    v.push("project".to_owned());
    v.push("metadata".to_owned());
    v.push("--json-output".to_owned());
    proof {
        assert(v.deep_view() =~= seq!["project"@, "metadata"@, "--json-output"@]);
    }
    v
}

/// Appends the language-selection arguments for C++ input, nothing for C.
pub fn push_lang_args(b: &mut ArgBuilder, is_cpp: bool)
    ensures
        final(b)@ == old(b)@ + lang_args(is_cpp),
{
    if is_cpp {
        b.push("-x".to_owned());
        b.push("c++".to_owned());
    }
    proof {
        assert(b@ =~= old(b)@ + lang_args(is_cpp));
    }
}

/// Appends the target-triple argument pair.
pub fn push_target_args(b: &mut ArgBuilder, target: &str)
    ensures
        final(b)@ == old(b)@ + target_args(target@),
{
    b.push("-target".to_owned());
    b.push(target.to_owned());
    proof {
        assert(b@ =~= old(b)@ + target_args(target@));
    }
}

/// Appends one argument per item, each prefixed with `prefix`.
fn push_prefixed(b: &mut ArgBuilder, prefix: &str, items: &Vec<String>)
    ensures
        final(b)@ == old(b)@ + prefixed(prefix@, items.deep_view()),
{
    let mut i: usize = 0;
    while i < items.len()
        invariant
            i <= items.len(),
            b@ == old(b)@ + prefixed(prefix@, items.deep_view().take(i as int)),
        decreases items.len() - i,
    {
        let mut arg = prefix.to_owned();
        let item = &items[i];
        arg.append(item.as_str());
        b.push(arg);
        proof {
            assert(b@ =~= old(b)@ + prefixed(prefix@, items.deep_view().take(i + 1 as int)));
        }
        i += 1;
    }
    proof {
        assert(items.deep_view().take(items.deep_view().len() as int) =~= items.deep_view());
        assert(b@ =~= old(b)@ + prefixed(prefix@, items.deep_view()));
    }
}

/// Appends the include-path arguments of every group, in document order.
fn push_include_args(b: &mut ArgBuilder, groups: &Vec<(String, Vec<String>)>)
    ensures
        final(b)@ == old(b)@ + include_args(groups_view(groups@)),
{
    let mut i: usize = 0;
    while i < groups.len()
        invariant
            i <= groups.len(),
            b@ == old(b)@ + include_args(groups_view(groups@.take(i as int))),
        decreases groups.len() - i,
    {
        let group = &groups[i];
        push_prefixed(b, "-I", &group.1);
        proof {
            let f = |g: (Seq<char>, Seq<Seq<char>>)| prefixed("-I"@, g.1);
            let prev = groups_view(groups@.take(i as int));
            let next = groups_view(groups@.take(i + 1 as int));
            assert(next =~= prev.push((group.0@, group.1.deep_view())));
            assert(next.map_values(f) =~= prev.map_values(f).push(
                prefixed("-I"@, group.1.deep_view()),
            ));
            prev.map_values(f).lemma_flatten_push(prefixed("-I"@, group.1.deep_view()));
            assert(b@ =~= old(b)@ + include_args(next));
        }
        i += 1;
    }
    proof {
        assert(groups@.take(groups@.len() as int) =~= groups@);
    }
}

/// Appends everything one environment's metadata contributes, in the fixed
/// order: library source directories, defines, include groups.
pub fn push_meta_args(b: &mut ArgBuilder, m: &EnvMetadata)
    ensures
        final(b)@ == old(b)@ + meta_args(m@),
{
    push_prefixed(b, "-I", &m.libsource_dirs);
    push_prefixed(b, "-D", &m.defines);
    push_include_args(b, &m.include_groups);
    proof {
        assert(b@ =~= old(b)@ + meta_args(m@));
    }
}

/// The adapter's one operation: translates the build tool's captured
/// metadata output into compiler arguments appended to `builder`, and names
/// the selected target environment. Fails, leaving no partial result to the
/// caller, exactly where the text does not parse or the document's shape
/// does not match the schema.
pub fn apply(builder: ArgBuilder, metadata_json: &str, is_cpp: bool, target: &str) -> (r: Result<
    (ArgBuilder, String),
    PioError,
>)
    ensures
        r is Ok <==> applied_args(parsed_json(metadata_json@), is_cpp, target@) is Ok,
        r is Ok ==> r->Ok_0.0@ == builder@ + applied_args(
            parsed_json(metadata_json@),
            is_cpp,
            target@,
        )->Ok_0,
        r is Ok ==> r->Ok_0.1@ == doc_env(parsed_json(metadata_json@)->Some_0)->Some_0.0,
        r is Err ==> r->Err_0 == applied_args(
            parsed_json(metadata_json@),
            is_cpp,
            target@,
        )->Err_0,
{
    let mut b = builder;
    push_lang_args(&mut b, is_cpp);
    push_target_args(&mut b, target);
    let doc = match parse_metadata(metadata_json) {
        Ok(doc) => doc,
        Err(e) => {
            return Err(e);
        },
    };
    let (env_name, env) = match select_env(&doc) {
        Ok(selected) => selected,
        Err(e) => {
            return Err(e);
        },
    };
    let m = match env_metadata(env) {
        Ok(m) => m,
        Err(field) => {
            return Err(PioError::ShapeMismatch(field));
        },
    };
    push_meta_args(&mut b, &m);
    proof {
        assert(b@ =~= builder@ + applied_args(parsed_json(metadata_json@), is_cpp, target@)->Ok_0);
    }
    Ok((b, env_name))
}

/// With C++ selected, the two language-selection arguments stand first and
/// precede the target-argument pair, whatever the document contributes.
pub proof fn lemma_cpp_args_precede_target(parsed: Option<JsonVal>, target: Seq<char>)
    requires
        applied_args(parsed, true, target) is Ok,
    ensures
        applied_args(parsed, true, target)->Ok_0.len() >= 4,
        applied_args(parsed, true, target)->Ok_0[0] == "-x"@,
        applied_args(parsed, true, target)->Ok_0[1] == "c++"@,
        applied_args(parsed, true, target)->Ok_0[2] == "-target"@,
        applied_args(parsed, true, target)->Ok_0[3] == target,
{
}

/// An environment whose consumed fields are all empty contributes nothing:
/// the run appends exactly the language and target arguments.
pub proof fn lemma_empty_metadata_only_lang_target(doc: JsonVal, is_cpp: bool, target: Seq<char>)
    requires
        adapter_args(doc, is_cpp, target) is Ok,
        env_meta_of(doc_env(doc)->Some_0.1)->Ok_0.libsource_dirs.len() == 0,
        env_meta_of(doc_env(doc)->Some_0.1)->Ok_0.defines.len() == 0,
        env_meta_of(doc_env(doc)->Some_0.1)->Ok_0.include_groups.len() == 0,
    ensures
        adapter_args(doc, is_cpp, target)->Ok_0 == lang_args(is_cpp) + target_args(target),
{
    let m = env_meta_of(doc_env(doc)->Some_0.1)->Ok_0;
    assert(meta_args(m) =~= Seq::<Seq<char>>::empty());
    assert(lang_args(is_cpp) + target_args(target) + meta_args(m) =~= lang_args(is_cpp)
        + target_args(target));
}

/// A document whose top level is not a keyed mapping, or one with no keys,
/// is rejected as an invalid configuration, never processed in part.
pub proof fn lemma_non_mapping_rejected(doc: JsonVal, is_cpp: bool, target: Seq<char>)
    requires
        !(doc is Obj) || doc->Obj_0.len() == 0,
    ensures
        adapter_args(doc, is_cpp, target) == Err::<Seq<Seq<char>>, PioError>(
            PioError::ShapeMismatch(MetaField::TopLevel),
        ),
{
}

/// The selected environment is the document's own first entry, so the
/// selection follows the document's key order; any further environments are
/// ignored: two documents that agree on their first entry yield the same
/// arguments.
pub proof fn lemma_first_entry_decides(
    doc1: JsonVal,
    doc2: JsonVal,
    is_cpp: bool,
    target: Seq<char>,
)
    requires
        doc1 is Obj && doc1->Obj_0.len() > 0,
        doc2 is Obj && doc2->Obj_0.len() > 0,
        doc1->Obj_0[0] == doc2->Obj_0[0],
    ensures
        doc_env(doc1) == Some(doc1->Obj_0[0]),
        adapter_args(doc1, is_cpp, target) == adapter_args(doc2, is_cpp, target),
{
}

/// Repeated runs on the same captured text with the same flags yield the
/// same outcome: the result is a function of the text and the flags alone.
pub proof fn lemma_deterministic(
    s: Seq<char>,
    is_cpp: bool,
    target: Seq<char>,
    r1: Result<Seq<Seq<char>>, PioError>,
    r2: Result<Seq<Seq<char>>, PioError>,
)
    requires
        r1 == applied_args(parsed_json(s), is_cpp, target),
        r2 == applied_args(parsed_json(s), is_cpp, target),
    ensures
        r1 == r2,
{
}

} // verus!
