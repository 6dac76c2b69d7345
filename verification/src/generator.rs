//! The graph compiler: turns a workspace of nested blocks into script text
//! by walking the first root block, binding each block's declared parameters,
//! fields, nested inputs, statement chains, next-sibling and mutation data,
//! and rendering the block type's template against those bindings.
//!
//! The whole computation is pinned to one spec function of the catalog and
//! the workspace content, so a compile neither reads nor leaves any other
//! state: calling it twice on the same input gives the same text.

use vstd::prelude::*;

use crate::catalog::BlockArgument;
use crate::catalog::BlockStore;
use crate::catalog::SchemaV;
use crate::json::JsonV;
use crate::json::JsonValue;
use crate::json::member;
use crate::json::obj_lookup;

verus! {

broadcast use vstd::std_specs::vec::group_vec_axioms;

/// How deep nested blocks may reach. A workspace is user input, so the walk
/// is cut off at this bound rather than trusted to be shallow; the bound
/// mirrors the sandbox's own call-depth limit.
pub const MAX_DEPTH: u32 = 64;

/// A template paired with the variables it expects; the shape block
/// definitions carry their script templates in.
#[derive(Debug)]
pub struct RhaiTemplate {
    pub template: String,
    pub variables: Vec<String>,
}

/// Why a compile was refused, with the text the message carries.
#[derive(Debug)]
pub enum CompileError {
    /// The workspace or one of its input entries is not shaped as expected.
    StructuralError(String),
    /// A block names a type the catalog does not know.
    UnknownBlockType(String),
    /// The type is known but declares no template.
    MissingTemplate(String),
    /// The template did not render: the type, then the renderer's words.
    TemplateRenderError(String, String),
    /// Blocks nest deeper than [`MAX_DEPTH`]; a cycle would look the same.
    CycleDetected,
}

/// The content of a [`CompileError`].
pub enum CompileErrorV {
    StructuralError(Seq<char>),
    UnknownBlockType(Seq<char>),
    MissingTemplate(Seq<char>),
    TemplateRenderError(Seq<char>, Seq<char>),
    CycleDetected,
}

impl DeepView for CompileError {
    type V = CompileErrorV;

    open spec fn deep_view(&self) -> CompileErrorV {
        match self {
            CompileError::StructuralError(m) => CompileErrorV::StructuralError(m@),
            CompileError::UnknownBlockType(t) => CompileErrorV::UnknownBlockType(t@),
            CompileError::MissingTemplate(t) => CompileErrorV::MissingTemplate(t@),
            CompileError::TemplateRenderError(t, m) => CompileErrorV::TemplateRenderError(t@, m@),
            CompileError::CycleDetected => CompileErrorV::CycleDetected,
        }
    }
}

/// The message each error carries, as the store reports it.
pub open spec fn spec_message(e: CompileErrorV) -> Seq<char> {
    match e {
        CompileErrorV::StructuralError(m) => m,
        CompileErrorV::UnknownBlockType(t) => "Block definition not found for type: "@ + t,
        CompileErrorV::MissingTemplate(t) => "No Rhai template found for block type: "@ + t,
        CompileErrorV::TemplateRenderError(t, m) => "Template rendering error: "@ + m,
        CompileErrorV::CycleDetected => "Maximum block nesting depth exceeded"@,
    }
}

impl CompileError {
    /// The error in words.
    pub fn message(&self) -> (r: String)
        ensures
            r@ == spec_message(self.deep_view()),
    {
        match self {
            CompileError::StructuralError(m) => m.clone(),
            CompileError::UnknownBlockType(t) => String::from_str(
                "Block definition not found for type: ",
            ).concat(t.as_str()),
            CompileError::MissingTemplate(t) => String::from_str(
                "No Rhai template found for block type: ",
            ).concat(t.as_str()),
            CompileError::TemplateRenderError(_, m) => String::from_str(
                "Template rendering error: ",
            ).concat(m.as_str()),
            CompileError::CycleDetected => String::from_str(
                "Maximum block nesting depth exceeded",
            ),
        }
    }
}

/// What the template renderer returns for a template and a binding map. The
/// renderer's behaviour takes pages to state, but it is a function of the
/// two arguments alone; this name stands for that function, and the one
/// trusted wrapper below applies it.
pub uninterp spec fn render_of(template: Seq<char>, ctx: Map<Seq<char>, JsonV>) -> Result<
    Seq<char>,
    Seq<char>,
>;

/// A compile result, content only.
pub open spec fn gen_result_view(r: Result<String, CompileError>) -> Result<
    Seq<char>,
    CompileErrorV,
> {
    match r {
        Ok(s) => Ok(s@),
        Err(e) => Err(e.deep_view()),
    }
}

/// A render result, content only.
pub open spec fn render_result_view(r: Result<String, String>) -> Result<Seq<char>, Seq<char>> {
    match r {
        Ok(s) => Ok(s@),
        Err(e) => Err(e@),
    }
}

/// Relies on `serde_json::Value`: the renderer's own value type, built from
/// a [`JsonValue`] by the conversion below and never read back.
#[verifier::external_type_specification]
#[verifier::external_body]
pub struct ExSerdeValue(serde_json::Value);

/// Relies on `serde_json::Value`'s constructors: each variant of
/// [`JsonValue`] is carried over one for one.
#[verifier::external_body]
fn json_of(v: &JsonValue) -> serde_json::Value {
    match v {
        JsonValue::Null => serde_json::Value::Null,
        JsonValue::Bool(b) => serde_json::Value::Bool(*b),
        JsonValue::Int(i) => serde_json::Value::from(*i),
        JsonValue::Str(s) => serde_json::Value::String(s.clone()),
        JsonValue::Arr(a) => serde_json::Value::Array(a.iter().map(json_of).collect()),
        JsonValue::Obj(o) => serde_json::Value::Object(
            o.iter().map(|e| (e.0.clone(), json_of(&e.1))).collect(),
        ),
    }
}

/// Relies on `BTreeMap::from_iter`: the binding entries, each value carried
/// over by [`json_of`]. A later entry wins a key, as in the binding map.
#[verifier::external_body]
fn bindings_tree(data: &Vec<(String, JsonValue)>) -> std::collections::BTreeMap<
    String,
    serde_json::Value,
> {
    data.iter().map(|e| (e.0.clone(), json_of(&e.1))).collect()
}

/// Relies on `handlebars::Handlebars`: the template engine the renderer
/// drives; configured and used only below, never read.
#[verifier::external_type_specification]
#[verifier::external_body]
pub struct ExHandlebars<'a>(handlebars::Handlebars<'a>);

/// Relies on `handlebars::Handlebars::register_helper`: replaces the
/// `switch`, `case` and `each` helpers — as the block templates expect —
/// by ones that write the helper's name, an underscore, and its first
/// argument.
#[verifier::external_body]
fn install_tag_helpers(hb: &mut handlebars::Handlebars<'static>) {
    for name in ["switch", "case", "each"] {
        let helper = move |h: &handlebars::Helper,
            _: &handlebars::Handlebars,
            _: &handlebars::Context,
            _: &mut handlebars::RenderContext,
            out: &mut dyn handlebars::Output| -> handlebars::HelperResult {
            let v = h.param(0).map(|p| p.value().to_string()).unwrap_or_default();
            out.write(&format!("{}_{}", name, v))?;
            Ok(())
        };
        hb.register_helper(name, Box::new(helper));
    }
}

/// Relies on `handlebars::Handlebars::render_template` in strict mode,
/// with the three tag helpers above installed. So configured, rendering is
/// a function of the template text and the binding content alone, which
/// `render_of` names.
#[verifier::external_body]
fn hb_render(tpl: &str, data: &Vec<(String, JsonValue)>) -> (r: Result<String, String>)
    ensures
        render_result_view(r) == render_of(tpl@, crate::kv::assoc_map(data@)),
{
    let mut hb = handlebars::Handlebars::new();
    hb.set_strict_mode(true);
    install_tag_helpers(&mut hb);
    hb.render_template(tpl, &bindings_tree(data)).map_err(|e| e.to_string())
}

/// An array read out of an optional value, when it is one.
pub open spec fn as_arr(v: Option<JsonV>) -> Option<Seq<JsonV>> {
    match v {
        Some(JsonV::Arr(a)) => Some(a),
        _ => None,
    }
}

/// Member lookup carried through an optional value.
pub open spec fn opt_member(v: Option<JsonV>, key: Seq<char>) -> Option<JsonV> {
    match v {
        Some(x) => member(x, key),
        None => None,
    }
}

/// The root block list of a workspace: the nested shape
/// `blocks.blocks.blocks` is tried first, then the flat `blocks` array.
pub open spec fn spec_workspace_blocks(ws: JsonV) -> Option<Seq<JsonV>> {
    let nested = as_arr(
        opt_member(opt_member(member(ws, "blocks"@), "blocks"@), "blocks"@),
    );
    if nested is Some {
        nested
    } else {
        as_arr(member(ws, "blocks"@))
    }
}

/// Every declared parameter bound to the empty string, in declaration order.
pub open spec fn init_params(params: Seq<Seq<char>>) -> Map<Seq<char>, JsonV>
    decreases params.len(),
{
    if params.len() == 0 {
        Map::empty()
    } else {
        init_params(params.drop_last()).insert(params.last(), JsonV::Str(Seq::empty()))
    }
}

/// Literal field values laid over the bindings: each `fields` entry that
/// carries a `value` member binds its key to that member.
pub open spec fn overlay_fields(
    m: Map<Seq<char>, JsonV>,
    entries: Seq<(Seq<char>, JsonV)>,
) -> Map<Seq<char>, JsonV>
    decreases entries.len(),
{
    if entries.len() == 0 {
        m
    } else {
        let m2 = overlay_fields(m, entries.drop_last());
        let e = entries.last();
        match member(e.1, "value"@) {
            Some(v) => m2.insert(e.0, v),
            None => m2,
        }
    }
}

/// Each mutation entry bound under the reserved `mutation_` prefix.
pub open spec fn overlay_mutation(
    m: Map<Seq<char>, JsonV>,
    entries: Seq<(Seq<char>, JsonV)>,
) -> Map<Seq<char>, JsonV>
    decreases entries.len(),
{
    if entries.len() == 0 {
        m
    } else {
        let m2 = overlay_mutation(m, entries.drop_last());
        let e = entries.last();
        m2.insert("mutation_"@ + e.0, e.1)
    }
}

/// Value inputs bound in order: an entry that is an object with a `block`
/// member has that block rendered and its text bound under the entry's key;
/// an object without one is passed over; anything else is a structural
/// error. The first failure aborts the whole compile.
pub open spec fn bind_inputs(
    cat: Map<Seq<char>, SchemaV>,
    m: Map<Seq<char>, JsonV>,
    entries: Seq<(Seq<char>, JsonV)>,
    depth: nat,
) -> Result<Map<Seq<char>, JsonV>, CompileErrorV>
    decreases depth, 1nat, entries.len(),
{
    if entries.len() == 0 {
        Ok(m)
    } else {
        match bind_inputs(cat, m, entries.drop_last(), depth) {
            Err(e) => Err(e),
            Ok(m2) => {
                let e = entries.last();
                match e.1 {
                    JsonV::Obj(inner) => match obj_lookup(inner, "block"@) {
                        Some(b) => if depth == 0 {
                            Err(CompileErrorV::CycleDetected)
                        } else {
                            match spec_render_block(cat, b, (depth - 1) as nat) {
                                Ok(code) => Ok(m2.insert(e.0, JsonV::Str(code))),
                                Err(err) => Err(err),
                            }
                        },
                        None => Ok(m2),
                    },
                    _ => Err(
                        CompileErrorV::StructuralError("Invalid input value for key "@ + e.0),
                    ),
                }
            },
        }
    }
}

/// Statement inputs bound in order: an entry with a `block` member has the
/// head of that chain rendered and bound under the entry's key; the rest are
/// passed over. The first failure aborts the whole compile.
pub open spec fn bind_statements(
    cat: Map<Seq<char>, SchemaV>,
    m: Map<Seq<char>, JsonV>,
    entries: Seq<(Seq<char>, JsonV)>,
    depth: nat,
) -> Result<Map<Seq<char>, JsonV>, CompileErrorV>
    decreases depth, 1nat, entries.len(),
{
    if entries.len() == 0 {
        Ok(m)
    } else {
        match bind_statements(cat, m, entries.drop_last(), depth) {
            Err(e) => Err(e),
            Ok(m2) => {
                let e = entries.last();
                match member(e.1, "block"@) {
                    Some(b) => if depth == 0 {
                        Err(CompileErrorV::CycleDetected)
                    } else {
                        match spec_render_block(cat, b, (depth - 1) as nat) {
                            Ok(code) => Ok(m2.insert(e.0, JsonV::Str(code))),
                            Err(err) => Err(err),
                        }
                    },
                    None => Ok(m2),
                }
            },
        }
    }
}

/// The object entries behind an optional member, when the member is there
/// and is an object.
pub open spec fn member_obj_entries(block: JsonV, key: Seq<char>) -> Option<
    Seq<(Seq<char>, JsonV)>,
> {
    match member(block, key) {
        Some(JsonV::Obj(entries)) => Some(entries),
        _ => None,
    }
}

/// Rendering one block, fuelled by the remaining depth: resolve the type
/// against the catalog, bind declared parameters, fields, inputs,
/// statements (with the `hasElse` flag for a conditional block), the `next`
/// sibling under the reserved `NEXT` key — spliced only where the template
/// asks for it — and mutation data, then render the type's template.
pub open spec fn spec_render_block(
    cat: Map<Seq<char>, SchemaV>,
    block: JsonV,
    depth: nat,
) -> Result<Seq<char>, CompileErrorV>
    decreases depth, 2nat, 0nat,
{
    match member(block, "type"@) {
        Some(JsonV::Str(t)) => {
            if !cat.contains_key(t) {
                Err(CompileErrorV::UnknownBlockType(t))
            } else {
                match cat[t].template {
                    None => Err(CompileErrorV::MissingTemplate(t)),
                    Some(tpl) => {
                        let m0 = init_params(cat[t].params);
                        let m1 = match member_obj_entries(block, "fields"@) {
                            Some(entries) => overlay_fields(m0, entries),
                            None => m0,
                        };
                        let inputs_r = match member_obj_entries(block, "inputs"@) {
                            Some(entries) => bind_inputs(cat, m1, entries, depth),
                            None => Ok(m1),
                        };
                        match inputs_r {
                            Err(e) => Err(e),
                            Ok(m2) => {
                                let m2b = if t == "controls_if"@ {
                                    m2.insert("hasElse"@, JsonV::Bool(false))
                                } else {
                                    m2
                                };
                                let stmts = member_obj_entries(block, "statements"@);
                                let stmts_r = match stmts {
                                    Some(entries) => bind_statements(cat, m2b, entries, depth),
                                    None => Ok(m2b),
                                };
                                match stmts_r {
                                    Err(e) => Err(e),
                                    Ok(m3) => {
                                        let m3b = if t == "controls_if"@ && (match stmts {
                                            Some(entries) => obj_lookup(entries, "ELSE"@) is Some,
                                            None => false,
                                        }) {
                                            m3.insert("hasElse"@, JsonV::Bool(true))
                                        } else {
                                            m3
                                        };
                                        let next_r = match opt_member(
                                            member(block, "next"@),
                                            "block"@,
                                        ) {
                                            Some(nb) => if depth == 0 {
                                                Err(CompileErrorV::CycleDetected)
                                            } else {
                                                match spec_render_block(
                                                    cat,
                                                    nb,
                                                    (depth - 1) as nat,
                                                ) {
                                                    Ok(code) => Ok(
                                                        m3b.insert("NEXT"@, JsonV::Str(code)),
                                                    ),
                                                    Err(err) => Err(err),
                                                }
                                            },
                                            None => Ok(m3b),
                                        };
                                        match next_r {
                                            Err(e) => Err(e),
                                            Ok(m4) => {
                                                let m5 = match member_obj_entries(
                                                    block,
                                                    "mutation"@,
                                                ) {
                                                    Some(entries) => overlay_mutation(m4, entries),
                                                    None => m4,
                                                };
                                                match render_of(tpl, m5) {
                                                    Ok(s) => Ok(s),
                                                    Err(msg) => Err(
                                                        CompileErrorV::TemplateRenderError(t, msg),
                                                    ),
                                                }
                                            },
                                        }
                                    },
                                }
                            },
                        }
                    },
                }
            }
        },
        _ => Err(CompileErrorV::StructuralError("Block type not found"@)),
    }
}

/// Sets `key` to `value` in the binding list, replacing an earlier binding
/// of the same key.
fn bindings_insert(data: &mut Vec<(String, JsonValue)>, key: String, value: JsonValue)
    requires
        crate::kv::assoc_unique(old(data)@),
    ensures
        crate::kv::assoc_unique(final(data)@),
        crate::kv::assoc_map(final(data)@) =~= crate::kv::assoc_map(old(data)@).insert(
            key@,
            value.deep_view(),
        ),
{
    match crate::kv::assoc_index_of(data, key.as_str()) {
        Some(i) => {
            proof {
                crate::kv::lemma_assoc_update(data@, i as int, (key, value));
                assert(data@.remove(i as int).insert(i as int, (key, value)) =~= data@.update(
                    i as int,
                    (key, value),
                ));
            }
            data.remove(i);
            data.insert(i, (key, value));
        },
        None => {
            proof {
                crate::kv::lemma_assoc_push(data@, (key, value));
            }
            data.push((key, value));
        },
    }
}

/// The parameters a schema declares for a definition's argument list.
pub open spec fn params_of(args0: Option<Seq<crate::catalog::BlockArgumentV>>) -> Seq<Seq<char>> {
    match args0 {
        Some(args) => crate::catalog::args_names(args),
        None => Seq::empty(),
    }
}

/// Binds every declared argument name to the empty string.
fn bind_init_params(data: &mut Vec<(String, JsonValue)>, args0: &Option<Vec<BlockArgument>>)
    requires
        crate::kv::assoc_unique(old(data)@),
    ensures
        crate::kv::assoc_unique(final(data)@),
        crate::kv::assoc_map(final(data)@) =~= fold_init_params(
            crate::kv::assoc_map(old(data)@),
            params_of(args0.deep_view()),
        ),
{
    match args0 {
        None => {},
        Some(args) => {
            let ghost params = params_of(args0.deep_view());
            let n = args.len();
            for i in 0..n
                invariant
                    n == args@.len(),
                    params == crate::catalog::args_names(args.deep_view()),
                    params.len() == n,
                    crate::kv::assoc_unique(data@),
                    crate::kv::assoc_map(data@) =~= fold_init_params(
                        crate::kv::assoc_map(old(data)@),
                        params.take(i as int),
                    ),
            {
                proof {
                    assert(params.take(i + 1).drop_last() =~= params.take(i as int));
                    assert(params.take(i + 1).last() == params[i as int]);
                    assert(params[i as int] == args@[i as int].name@);
                }
                bindings_insert(data, args[i].name.clone(), JsonValue::Str(String::new()));
            }
            proof {
                assert(params.take(n as int) =~= params);
            }
        },
    }
}

/// [`init_params`], started from an existing map; the binding list always
/// starts empty, so the two agree there.
pub open spec fn fold_init_params(m: Map<Seq<char>, JsonV>, params: Seq<Seq<char>>) -> Map<
    Seq<char>,
    JsonV,
>
    decreases params.len(),
{
    if params.len() == 0 {
        m
    } else {
        fold_init_params(m, params.drop_last()).insert(params.last(), JsonV::Str(Seq::empty()))
    }
}

/// Started from the empty map, the two parameter folds agree.
proof fn lemma_fold_init_params_empty(params: Seq<Seq<char>>)
    ensures
        fold_init_params(Map::empty(), params) == init_params(params),
    decreases params.len(),
{
    if params.len() > 0 {
        lemma_fold_init_params_empty(params.drop_last());
    }
}

/// Lays literal field values over the bindings, as `overlay_fields` says.
fn bind_fields(data: &mut Vec<(String, JsonValue)>, block: &JsonValue)
    requires
        crate::kv::assoc_unique(old(data)@),
    ensures
        crate::kv::assoc_unique(final(data)@),
        crate::kv::assoc_map(final(data)@) =~= (match member_obj_entries(
            block.deep_view(),
            "fields"@,
        ) {
            Some(entries) => overlay_fields(crate::kv::assoc_map(old(data)@), entries),
            None => crate::kv::assoc_map(old(data)@),
        }),
{
    let ghost m0 = crate::kv::assoc_map(data@);
    if let Some(fields_v) = block.get("fields") {
        if let Some(entries) = fields_v.as_object() {
            let ghost ev = crate::json::obj_view(entries@);
            proof {
                crate::json::lemma_obj_view(entries@);
            }
            let n = entries.len();
            for i in 0..n
                invariant
                    n == entries@.len(),
                    ev == crate::json::obj_view(entries@),
                    ev.len() == n,
                    forall|j: int|
                        0 <= j < n ==> #[trigger] ev[j] == (
                            entries@[j].0@,
                            entries@[j].1.deep_view(),
                        ),
                    crate::kv::assoc_unique(data@),
                    crate::kv::assoc_map(data@) =~= overlay_fields(m0, ev.take(i as int)),
            {
                proof {
                    assert(ev.take(i + 1).drop_last() =~= ev.take(i as int));
                    assert(ev.take(i + 1).last() == ev[i as int]);
                }
                let entry = &entries[i];
                if let Some(val) = entry.1.get("value") {
                    bindings_insert(data, entry.0.clone(), val.clone());
                }
            }
            proof {
                assert(ev.take(n as int) =~= ev);
            }
        }
    }
}

/// Binds each mutation entry under the `mutation_` prefix, as
/// `overlay_mutation` says.
fn bind_mutation(data: &mut Vec<(String, JsonValue)>, block: &JsonValue)
    requires
        crate::kv::assoc_unique(old(data)@),
    ensures
        crate::kv::assoc_unique(final(data)@),
        crate::kv::assoc_map(final(data)@) =~= (match member_obj_entries(
            block.deep_view(),
            "mutation"@,
        ) {
            Some(entries) => overlay_mutation(crate::kv::assoc_map(old(data)@), entries),
            None => crate::kv::assoc_map(old(data)@),
        }),
{
    let ghost m0 = crate::kv::assoc_map(data@);
    if let Some(mutation_v) = block.get("mutation") {
        if let Some(entries) = mutation_v.as_object() {
            let ghost ev = crate::json::obj_view(entries@);
            proof {
                crate::json::lemma_obj_view(entries@);
            }
            let n = entries.len();
            for i in 0..n
                invariant
                    n == entries@.len(),
                    ev == crate::json::obj_view(entries@),
                    ev.len() == n,
                    forall|j: int|
                        0 <= j < n ==> #[trigger] ev[j] == (
                            entries@[j].0@,
                            entries@[j].1.deep_view(),
                        ),
                    crate::kv::assoc_unique(data@),
                    crate::kv::assoc_map(data@) =~= overlay_mutation(m0, ev.take(i as int)),
            {
                proof {
                    assert(ev.take(i + 1).drop_last() =~= ev.take(i as int));
                    assert(ev.take(i + 1).last() == ev[i as int]);
                }
                let entry = &entries[i];
                let key = String::from_str("mutation_").concat(entry.0.as_str());
                bindings_insert(data, key, entry.1.clone());
            }
            proof {
                assert(ev.take(n as int) =~= ev);
            }
        }
    }
}

/// A failure among the first `k` entries settles the whole input fold.
proof fn lemma_bind_inputs_prefix(
    cat: Map<Seq<char>, SchemaV>,
    m: Map<Seq<char>, JsonV>,
    entries: Seq<(Seq<char>, JsonV)>,
    depth: nat,
    k: int,
)
    requires
        0 <= k <= entries.len(),
        bind_inputs(cat, m, entries.take(k), depth) is Err,
    ensures
        bind_inputs(cat, m, entries, depth) == bind_inputs(cat, m, entries.take(k), depth),
    decreases entries.len(),
{
    if k < entries.len() {
        assert(entries.drop_last().take(k) =~= entries.take(k));
        lemma_bind_inputs_prefix(cat, m, entries.drop_last(), depth, k);
    } else {
        assert(entries.take(k) =~= entries);
    }
}

/// A failure among the first `k` entries settles the whole statement fold.
proof fn lemma_bind_statements_prefix(
    cat: Map<Seq<char>, SchemaV>,
    m: Map<Seq<char>, JsonV>,
    entries: Seq<(Seq<char>, JsonV)>,
    depth: nat,
    k: int,
)
    requires
        0 <= k <= entries.len(),
        bind_statements(cat, m, entries.take(k), depth) is Err,
    ensures
        bind_statements(cat, m, entries, depth) == bind_statements(cat, m, entries.take(k), depth),
    decreases entries.len(),
{
    if k < entries.len() {
        assert(entries.drop_last().take(k) =~= entries.take(k));
        lemma_bind_statements_prefix(cat, m, entries.drop_last(), depth, k);
    } else {
        assert(entries.take(k) =~= entries);
    }
}

/// The graph compiler itself: a catalog snapshot, and nothing else.
#[derive(Debug)]
pub struct CodeGenerator {
    pub block_store: BlockStore,
}

impl CodeGenerator {
    /// Wraps a catalog snapshot.
    pub fn new(block_store: BlockStore) -> (s: Self)
        ensures
            s.block_store == block_store,
    {
        CodeGenerator { block_store }
    }

    /// Binds the value inputs of `block`, as `bind_inputs` says, rendering
    /// each referenced block. On failure the compile is aborted and the
    /// bindings are dead.
    #[verifier::loop_isolation(false)]
    fn bind_input_entries(
        &self,
        data: &mut Vec<(String, JsonValue)>,
        block: &JsonValue,
        depth: u32,
    ) -> (r: Result<(), CompileError>)
        requires
            self.block_store.wf(),
            crate::kv::assoc_unique(old(data)@),
        ensures
            crate::kv::assoc_unique(final(data)@),
            ({
                let spec_r = match member_obj_entries(block.deep_view(), "inputs"@) {
                    Some(entries) => bind_inputs(
                        self.block_store.catalog(),
                        crate::kv::assoc_map(old(data)@),
                        entries,
                        depth as nat,
                    ),
                    None => Ok(crate::kv::assoc_map(old(data)@)),
                };
                match r {
                    Ok(_) => spec_r == Ok::<_, CompileErrorV>(crate::kv::assoc_map(final(data)@)),
                    Err(e) => spec_r == Err::<Map<Seq<char>, JsonV>, _>(e.deep_view()),
                }
            }),
        decreases depth, 1nat,
    {
        let ghost cat = self.block_store.catalog();
        let ghost m0 = crate::kv::assoc_map(data@);
        if let Some(inputs_v) = block.get("inputs") {
            if let Some(entries) = inputs_v.as_object() {
                let ghost ev = crate::json::obj_view(entries@);
                proof {
                    crate::json::lemma_obj_view(entries@);
                }
                let n = entries.len();
                for i in 0..n
                    invariant
                        self.block_store.wf(),
                        cat == self.block_store.catalog(),
                        n == entries@.len(),
                        ev == crate::json::obj_view(entries@),
                        ev.len() == n,
                        forall|j: int|
                            0 <= j < n ==> #[trigger] ev[j] == (
                                entries@[j].0@,
                                entries@[j].1.deep_view(),
                            ),
                        crate::kv::assoc_unique(data@),
                        bind_inputs(cat, m0, ev.take(i as int), depth as nat) == Ok::<
                            _,
                            CompileErrorV,
                        >(crate::kv::assoc_map(data@)),
                {
                    proof {
                        assert(ev.take(i + 1).drop_last() =~= ev.take(i as int));
                        assert(ev.take(i + 1).last() == ev[i as int]);
                    }
                    let entry = &entries[i];
                    match &entry.1 {
                        JsonValue::Obj(_) => {
                            if let Some(inner) = entry.1.get("block") {
                                if depth == 0 {
                                    proof {
                                        assert(bind_inputs(cat, m0, ev.take(i + 1), depth as nat)
                                            == Err::<Map<Seq<char>, JsonV>, _>(
                                            CompileErrorV::CycleDetected,
                                        ));
                                        lemma_bind_inputs_prefix(
                                            cat,
                                            m0,
                                            ev,
                                            depth as nat,
                                            i + 1,
                                        );
                                    }
                                    return Err(CompileError::CycleDetected);
                                }
                                match self.generate_block_code(inner, depth - 1) {
                                    Ok(code) => {
                                        bindings_insert(
                                            data,
                                            entry.0.clone(),
                                            JsonValue::Str(code),
                                        );
                                    },
                                    Err(e) => {
                                        proof {
                                            assert(bind_inputs(
                                                cat,
                                                m0,
                                                ev.take(i + 1),
                                                depth as nat,
                                            ) == Err::<Map<Seq<char>, JsonV>, _>(e.deep_view()));
                                            lemma_bind_inputs_prefix(
                                                cat,
                                                m0,
                                                ev,
                                                depth as nat,
                                                i + 1,
                                            );
                                        }
                                        return Err(e);
                                    },
                                }
                            }
                        },
                        _ => {
                            proof {
                                assert(bind_inputs(cat, m0, ev.take(i + 1), depth as nat)
                                    == Err::<Map<Seq<char>, JsonV>, _>(
                                    CompileErrorV::StructuralError(
                                        "Invalid input value for key "@ + ev[i as int].0,
                                    ),
                                ));
                                lemma_bind_inputs_prefix(cat, m0, ev, depth as nat, i + 1);
                            }
                            return Err(
                                CompileError::StructuralError(
                                    String::from_str("Invalid input value for key ").concat(
                                        entry.0.as_str(),
                                    ),
                                ),
                            );
                        },
                    }
                }
                proof {
                    assert(ev.take(n as int) =~= ev);
                }
            }
        }
        Ok(())
    }

    /// Binds the statement inputs of `block`, as `bind_statements` says.
    #[verifier::loop_isolation(false)]
    fn bind_statement_entries(
        &self,
        data: &mut Vec<(String, JsonValue)>,
        block: &JsonValue,
        depth: u32,
    ) -> (r: Result<(), CompileError>)
        requires
            self.block_store.wf(),
            crate::kv::assoc_unique(old(data)@),
        ensures
            crate::kv::assoc_unique(final(data)@),
            ({
                let spec_r = match member_obj_entries(block.deep_view(), "statements"@) {
                    Some(entries) => bind_statements(
                        self.block_store.catalog(),
                        crate::kv::assoc_map(old(data)@),
                        entries,
                        depth as nat,
                    ),
                    None => Ok(crate::kv::assoc_map(old(data)@)),
                };
                match r {
                    Ok(_) => spec_r == Ok::<_, CompileErrorV>(crate::kv::assoc_map(final(data)@)),
                    Err(e) => spec_r == Err::<Map<Seq<char>, JsonV>, _>(e.deep_view()),
                }
            }),
        decreases depth, 1nat,
    {
        let ghost cat = self.block_store.catalog();
        let ghost m0 = crate::kv::assoc_map(data@);
        if let Some(stmts_v) = block.get("statements") {
            if let Some(entries) = stmts_v.as_object() {
                let ghost ev = crate::json::obj_view(entries@);
                proof {
                    crate::json::lemma_obj_view(entries@);
                }
                let n = entries.len();
                for i in 0..n
                    invariant
                        self.block_store.wf(),
                        cat == self.block_store.catalog(),
                        n == entries@.len(),
                        ev == crate::json::obj_view(entries@),
                        ev.len() == n,
                        forall|j: int|
                            0 <= j < n ==> #[trigger] ev[j] == (
                                entries@[j].0@,
                                entries@[j].1.deep_view(),
                            ),
                        crate::kv::assoc_unique(data@),
                        bind_statements(cat, m0, ev.take(i as int), depth as nat) == Ok::<
                            _,
                            CompileErrorV,
                        >(crate::kv::assoc_map(data@)),
                {
                    proof {
                        assert(ev.take(i + 1).drop_last() =~= ev.take(i as int));
                        assert(ev.take(i + 1).last() == ev[i as int]);
                    }
                    let entry = &entries[i];
                    if let Some(inner) = entry.1.get("block") {
                        if depth == 0 {
                            proof {
                                assert(bind_statements(cat, m0, ev.take(i + 1), depth as nat)
                                    == Err::<Map<Seq<char>, JsonV>, _>(
                                    CompileErrorV::CycleDetected,
                                ));
                                lemma_bind_statements_prefix(cat, m0, ev, depth as nat, i + 1);
                            }
                            return Err(CompileError::CycleDetected);
                        }
                        match self.generate_block_code(inner, depth - 1) {
                            Ok(code) => {
                                bindings_insert(data, entry.0.clone(), JsonValue::Str(code));
                            },
                            Err(e) => {
                                proof {
                                    assert(bind_statements(cat, m0, ev.take(i + 1), depth as nat)
                                        == Err::<Map<Seq<char>, JsonV>, _>(e.deep_view()));
                                    lemma_bind_statements_prefix(cat, m0, ev, depth as nat, i + 1);
                                }
                                return Err(e);
                            },
                        }
                    }
                }
                proof {
                    assert(ev.take(n as int) =~= ev);
                }
            }
        }
        Ok(())
    }

    /// Renders one block against the catalog, to the depth left.
    fn generate_block_code(&self, block: &JsonValue, depth: u32) -> (r: Result<String, CompileError>)
        requires
            self.block_store.wf(),
        ensures
            gen_result_view(r) == spec_render_block(
                self.block_store.catalog(),
                block.deep_view(),
                depth as nat,
            ),
        decreases depth, 2nat,
    {
        let ghost cat = self.block_store.catalog();
        let ghost bv = block.deep_view();
        let t: String = match block.get("type") {
            Some(v) => match v.as_str() {
                Some(s) => s.clone(),
                None => {
                    return Err(
                        CompileError::StructuralError(String::from_str("Block type not found")),
                    );
                },
            },
            None => {
                return Err(
                    CompileError::StructuralError(String::from_str("Block type not found")),
                );
            },
        };
        let def = match self.block_store.get(t.as_str()) {
            Some(d) => d,
            None => {
                return Err(CompileError::UnknownBlockType(t));
            },
        };
        proof {
            assert(cat.contains_key(t@));
            assert(cat[t@] == crate::catalog::schema_of(def.deep_view()));
        }
        let args0 = def.args0;
        let tpl: String = match def.rhai_template {
            Some(x) => x,
            None => {
                return Err(CompileError::MissingTemplate(t));
            },
        };
        proof {
            assert(cat[t@].template == Some(tpl@));
            assert(cat[t@].params == params_of(args0.deep_view()));
        }
        let ghost m0v = init_params(cat[t@].params);
        let ghost m1v = match member_obj_entries(bv, "fields"@) {
            Some(entries) => overlay_fields(m0v, entries),
            None => m0v,
        };
        let ghost inputs_rv = match member_obj_entries(bv, "inputs"@) {
            Some(entries) => bind_inputs(cat, m1v, entries, depth as nat),
            None => Ok(m1v),
        };
        let mut data: Vec<(String, JsonValue)> = Vec::new();
        proof {
            assert(crate::kv::assoc_map(data@) =~= Map::<Seq<char>, JsonV>::empty());
            lemma_fold_init_params_empty(cat[t@].params);
        }
        bind_init_params(&mut data, &args0);
        proof {
            assert(crate::kv::assoc_map(data@) == m0v);
        }
        bind_fields(&mut data, block);
        proof {
            assert(crate::kv::assoc_map(data@) == m1v);
        }
        match self.bind_input_entries(&mut data, block, depth) {
            Ok(_) => {},
            Err(e) => {
                proof {
                    assert(inputs_rv == Err::<Map<Seq<char>, JsonV>, _>(e.deep_view()));
                    assert(spec_render_block(cat, bv, depth as nat) == Err::<Seq<char>, _>(
                        e.deep_view(),
                    ));
                }
                return Err(e);
            },
        }
        proof {
            assert(inputs_rv == Ok::<_, CompileErrorV>(crate::kv::assoc_map(data@)));
        }
        let ghost m2v = inputs_rv->Ok_0;
        let is_controls_if = t == String::from_str("controls_if");
        if is_controls_if {
            bindings_insert(&mut data, String::from_str("hasElse"), JsonValue::Bool(false));
        }
        let ghost m2bv = if t@ == "controls_if"@ {
            m2v.insert("hasElse"@, JsonV::Bool(false))
        } else {
            m2v
        };
        proof {
            assert(crate::kv::assoc_map(data@) == m2bv);
        }
        let ghost stmtsv = member_obj_entries(bv, "statements"@);
        let ghost stmts_rv = match stmtsv {
            Some(entries) => bind_statements(cat, m2bv, entries, depth as nat),
            None => Ok(m2bv),
        };
        match self.bind_statement_entries(&mut data, block, depth) {
            Ok(_) => {},
            Err(e) => {
                proof {
                    assert(stmts_rv == Err::<Map<Seq<char>, JsonV>, _>(e.deep_view()));
                    assert(spec_render_block(cat, bv, depth as nat) == Err::<Seq<char>, _>(
                        e.deep_view(),
                    ));
                }
                return Err(e);
            },
        }
        let ghost m3v = stmts_rv->Ok_0;
        proof {
            assert(crate::kv::assoc_map(data@) == m3v);
        }
        let ghost has_else = match stmtsv {
            Some(entries) => obj_lookup(entries, "ELSE"@) is Some,
            None => false,
        };
        let ghost m3bv = if t@ == "controls_if"@ && has_else {
            m3v.insert("hasElse"@, JsonV::Bool(true))
        } else {
            m3v
        };
        if is_controls_if {
            if let Some(stmts_v) = block.get("statements") {
                if let Some(entries) = stmts_v.as_object() {
                    proof {
                        crate::json::lemma_obj_view(entries@);
                        crate::json::lemma_obj_lookup_some_iff(
                            crate::json::obj_view(entries@),
                            "ELSE"@,
                        );
                    }
                    match crate::kv::assoc_index_of(entries, "ELSE") {
                        Some(idx) => {
                            proof {
                                assert(crate::json::obj_view(entries@)[idx as int].0 == "ELSE"@);
                                assert(has_else);
                            }
                            bindings_insert(
                                &mut data,
                                String::from_str("hasElse"),
                                JsonValue::Bool(true),
                            );
                        },
                        None => {
                            proof {
                                assert forall|j: int|
                                    0 <= j < crate::json::obj_view(entries@).len() implies crate::json::obj_view(
                                    entries@,
                                )[j].0 != "ELSE"@ by {
                                    assert(entries@[j].0@ != "ELSE"@);
                                }
                                assert(!has_else);
                            }
                        },
                    }
                }
            }
        }
        proof {
            assert(crate::kv::assoc_map(data@) == m3bv);
        }
        let ghost next_rv = match opt_member(member(bv, "next"@), "block"@) {
            Some(nb) => if depth == 0 {
                Err(CompileErrorV::CycleDetected)
            } else {
                match spec_render_block(cat, nb, (depth - 1) as nat) {
                    Ok(code) => Ok(m3bv.insert("NEXT"@, JsonV::Str(code))),
                    Err(err) => Err(err),
                }
            },
            None => Ok(m3bv),
        };
        if let Some(next_v) = block.get("next") {
            if let Some(nb) = next_v.get("block") {
                if depth == 0 {
                    proof {
                        assert(spec_render_block(cat, bv, depth as nat) == Err::<Seq<char>, _>(
                            CompileErrorV::CycleDetected,
                        ));
                    }
                    return Err(CompileError::CycleDetected);
                }
                match self.generate_block_code(nb, depth - 1) {
                    Ok(code) => {
                        bindings_insert(&mut data, String::from_str("NEXT"), JsonValue::Str(code));
                    },
                    Err(e) => {
                        proof {
                            assert(next_rv == Err::<Map<Seq<char>, JsonV>, _>(e.deep_view()));
                            assert(spec_render_block(cat, bv, depth as nat) == Err::<Seq<char>, _>(
                                e.deep_view(),
                            ));
                        }
                        return Err(e);
                    },
                }
            }
        }
        let ghost m4v = next_rv->Ok_0;
        proof {
            assert(next_rv == Ok::<_, CompileErrorV>(m4v));
            assert(crate::kv::assoc_map(data@) == m4v);
        }
        bind_mutation(&mut data, block);
        let ghost m5v = match member_obj_entries(bv, "mutation"@) {
            Some(entries) => overlay_mutation(m4v, entries),
            None => m4v,
        };
        proof {
            assert(crate::kv::assoc_map(data@) == m5v);
        }
        let r = match hb_render(tpl.as_str(), &data) {
            Ok(s) => Ok(s),
            Err(msg) => Err(CompileError::TemplateRenderError(t, msg)),
        };
        proof {
            assert(gen_result_view(r) == (match render_of(tpl@, m5v) {
                Ok(s) => Ok::<Seq<char>, CompileErrorV>(s),
                Err(msg) => Err::<Seq<char>, CompileErrorV>(
                    CompileErrorV::TemplateRenderError(t@, msg),
                ),
            }));
        }
        r
    }

    /// Compiles a workspace to script text, as `spec_generate` says: a pure
    /// function of the catalog snapshot and the workspace content.
    pub fn generate_code(&self, workspace: &JsonValue) -> (r: Result<String, CompileError>)
        requires
            self.block_store.wf(),
        ensures
            gen_result_view(r) == spec_generate(self.block_store.catalog(), workspace.deep_view()),
    {
        let mut arr: Option<&Vec<JsonValue>> = None;
        if let Some(b1) = workspace.get("blocks") {
            if let Some(b2) = b1.get("blocks") {
                if let Some(b3) = b2.get("blocks") {
                    arr = b3.as_array();
                }
            }
        }
        if arr.is_none() {
            if let Some(b1) = workspace.get("blocks") {
                arr = b1.as_array();
            }
        }
        match arr {
            None => Err(
                CompileError::StructuralError(String::from_str("No blocks found in workspace")),
            ),
            Some(a) => {
                if a.len() == 0 {
                    Ok(String::new())
                } else {
                    proof {
                        crate::json::lemma_arr_view(a@);
                    }
                    self.generate_block_code(&a[0], MAX_DEPTH)
                }
            },
        }
    }
}

/// Compiling a whole workspace: no root block list is a structural error, an
/// empty list is the empty script, and otherwise the first root block's
/// rendering is the script.
pub open spec fn spec_generate(cat: Map<Seq<char>, SchemaV>, ws: JsonV) -> Result<
    Seq<char>,
    CompileErrorV,
> {
    match spec_workspace_blocks(ws) {
        None => Err(CompileErrorV::StructuralError("No blocks found in workspace"@)),
        Some(blocks) => if blocks.len() == 0 {
            Ok(Seq::empty())
        } else {
            spec_render_block(cat, blocks[0], MAX_DEPTH as nat)
        },
    }
}

} // verus!
