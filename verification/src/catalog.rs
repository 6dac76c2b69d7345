//! The block catalog: definitions of block types, each with its declared
//! arguments and an optional script template, kept in memory and consulted by
//! the compiler. Loading definitions from disk and writing them back is the
//! caller's concern; the catalog itself is a pure lookup structure.

use vstd::prelude::*;

use crate::host;

verus! {

broadcast use vstd::std_specs::vec::group_vec_axioms;

/// One declared argument of a block type: its kind, its name, and the
/// optional constraints the editor shows.
#[derive(Debug)]
pub struct BlockArgument {
    pub arg_type: String,
    pub name: String,
    pub check: Option<String>,
    pub options: Option<Vec<Vec<String>>>,
    pub default: Option<String>,
}

/// The mathematical content of a [`BlockArgument`].
pub struct BlockArgumentV {
    pub arg_type: Seq<char>,
    pub name: Seq<char>,
    pub check: Option<Seq<char>>,
    pub options: Option<Seq<Seq<Seq<char>>>>,
    pub default: Option<Seq<char>>,
}

impl DeepView for BlockArgument {
    type V = BlockArgumentV;

    open spec fn deep_view(&self) -> BlockArgumentV {
        BlockArgumentV {
            arg_type: self.arg_type@,
            name: self.name@,
            check: self.check.deep_view(),
            options: self.options.deep_view(),
            default: self.default.deep_view(),
        }
    }
}

impl Clone for BlockArgument {
    /// A clone carries the same content: the views are equal.
    fn clone(&self) -> (r: Self)
        ensures
            r.deep_view() == self.deep_view(),
    {
        let r = BlockArgument {
            arg_type: self.arg_type.clone(),
            name: self.name.clone(),
            check: clone_opt_string(&self.check),
            options: clone_options(&self.options),
            default: clone_opt_string(&self.default),
        };
        proof {
            assert(r.deep_view().options =~~= self.deep_view().options);
        }
        r
    }
}

fn clone_opt_string(s: &Option<String>) -> (r: Option<String>)
    ensures
        r.deep_view() == s.deep_view(),
{
    match s {
        Some(x) => Some(x.clone()),
        None => None,
    }
}

fn clone_string_vec(v: &Vec<String>) -> (r: Vec<String>)
    ensures
        r.deep_view() =~= v.deep_view(),
{
    let mut out: Vec<String> = Vec::new();
    let n = v.len();
    for i in 0..n
        invariant
            n == v@.len(),
            out@.len() == i,
            forall|j: int| 0 <= j < i ==> #[trigger] out@[j]@ == v@[j]@,
    {
        out.push(v[i].clone());
    }
    out
}

fn clone_options(v: &Option<Vec<Vec<String>>>) -> (r: Option<Vec<Vec<String>>>)
    ensures
        r.deep_view() =~~= v.deep_view(),
{
    match v {
        None => None,
        Some(rows) => {
            let mut out: Vec<Vec<String>> = Vec::new();
            let n = rows.len();
            for i in 0..n
                invariant
                    n == rows@.len(),
                    out@.len() == i,
                    forall|j: int|
                        0 <= j < i ==> #[trigger] out@[j].deep_view() =~= rows@[j].deep_view(),
            {
                out.push(clone_string_vec(&rows[i]));
            }
            Some(out)
        },
    }
}

/// One block type's definition: what the editor shows of it and the template
/// the compiler renders for it.
#[derive(Debug)]
pub struct BlockDefinition {
    pub block_type: String,
    pub message0: String,
    pub args0: Option<Vec<BlockArgument>>,
    pub message1: Option<String>,
    pub args1: Option<Vec<BlockArgument>>,
    pub output: Option<String>,
    pub previous_statement: Option<bool>,
    pub next_statement: Option<bool>,
    pub colour: i32,
    pub tooltip: String,
    pub help_url: Option<String>,
    pub extensions: Option<Vec<String>>,
    pub mutator: Option<String>,
    pub category: Option<String>,
    pub id: Option<String>,
    pub created: Option<i64>,
    pub modified: Option<i64>,
    pub rhai_template: Option<String>,
}

/// The mathematical content of a [`BlockDefinition`].
pub struct BlockDefinitionV {
    pub block_type: Seq<char>,
    pub message0: Seq<char>,
    pub args0: Option<Seq<BlockArgumentV>>,
    pub message1: Option<Seq<char>>,
    pub args1: Option<Seq<BlockArgumentV>>,
    pub output: Option<Seq<char>>,
    pub previous_statement: Option<bool>,
    pub next_statement: Option<bool>,
    pub colour: int,
    pub tooltip: Seq<char>,
    pub help_url: Option<Seq<char>>,
    pub extensions: Option<Seq<Seq<char>>>,
    pub mutator: Option<Seq<char>>,
    pub category: Option<Seq<char>>,
    pub id: Option<Seq<char>>,
    pub created: Option<i64>,
    pub modified: Option<i64>,
    pub rhai_template: Option<Seq<char>>,
}

impl DeepView for BlockDefinition {
    type V = BlockDefinitionV;

    open spec fn deep_view(&self) -> BlockDefinitionV {
        BlockDefinitionV {
            block_type: self.block_type@,
            message0: self.message0@,
            args0: self.args0.deep_view(),
            message1: self.message1.deep_view(),
            args1: self.args1.deep_view(),
            output: self.output.deep_view(),
            previous_statement: self.previous_statement,
            next_statement: self.next_statement,
            colour: self.colour as int,
            tooltip: self.tooltip@,
            help_url: self.help_url.deep_view(),
            extensions: self.extensions.deep_view(),
            mutator: self.mutator.deep_view(),
            category: self.category.deep_view(),
            id: self.id.deep_view(),
            created: self.created.deep_view(),
            modified: self.modified.deep_view(),
            rhai_template: self.rhai_template.deep_view(),
        }
    }
}

fn clone_args(v: &Option<Vec<BlockArgument>>) -> (r: Option<Vec<BlockArgument>>)
    ensures
        r.deep_view() =~~= v.deep_view(),
{
    match v {
        None => None,
        Some(args) => {
            let mut out: Vec<BlockArgument> = Vec::new();
            let n = args.len();
            for i in 0..n
                invariant
                    n == args@.len(),
                    out@.len() == i,
                    forall|j: int|
                        0 <= j < i ==> #[trigger] out@[j].deep_view() == args@[j].deep_view(),
            {
                out.push(args[i].clone());
            }
            Some(out)
        },
    }
}

fn clone_opt_string_vec(v: &Option<Vec<String>>) -> (r: Option<Vec<String>>)
    ensures
        r.deep_view() =~~= v.deep_view(),
{
    match v {
        None => None,
        Some(items) => Some(clone_string_vec(items)),
    }
}

impl Clone for BlockDefinition {
    /// A clone carries the same content: the views are equal.
    fn clone(&self) -> (r: Self)
        ensures
            r.deep_view() == self.deep_view(),
    {
        let r = BlockDefinition {
            block_type: self.block_type.clone(),
            message0: self.message0.clone(),
            args0: clone_args(&self.args0),
            message1: clone_opt_string(&self.message1),
            args1: clone_args(&self.args1),
            output: clone_opt_string(&self.output),
            previous_statement: self.previous_statement,
            next_statement: self.next_statement,
            colour: self.colour,
            tooltip: self.tooltip.clone(),
            help_url: clone_opt_string(&self.help_url),
            extensions: clone_opt_string_vec(&self.extensions),
            mutator: clone_opt_string(&self.mutator),
            category: clone_opt_string(&self.category),
            id: clone_opt_string(&self.id),
            created: self.created,
            modified: self.modified,
            rhai_template: clone_opt_string(&self.rhai_template),
        };
        r
    }
}

/// What the compiler reads of one block type: the declared parameter names
/// and the template text, if the type has one.
pub struct SchemaV {
    pub params: Seq<Seq<char>>,
    pub template: Option<Seq<char>>,
}

/// The declared argument names, in order.
pub open spec fn args_names(args: Seq<BlockArgumentV>) -> Seq<Seq<char>> {
    Seq::new(args.len(), |i: int| args[i].name)
}

/// The schema a definition declares: its argument names and its template.
pub open spec fn schema_of(d: BlockDefinitionV) -> SchemaV {
    SchemaV {
        params: match d.args0 {
            Some(args) => args_names(args),
            None => Seq::empty(),
        },
        template: d.rhai_template,
    }
}

/// The definition that stands in for a built-in template: only the type name
/// and the template text are filled.
pub open spec fn builtin_def_view(block_type: Seq<char>, template: Seq<char>) -> BlockDefinitionV {
    BlockDefinitionV {
        block_type: block_type,
        message0: Seq::empty(),
        args0: None,
        message1: None,
        args1: None,
        output: None,
        previous_statement: None,
        next_statement: None,
        colour: 0,
        tooltip: Seq::empty(),
        help_url: None,
        extensions: None,
        mutator: None,
        category: None,
        id: None,
        created: None,
        modified: None,
        rhai_template: Some(template),
    }
}

/// The in-memory block catalog: custom definitions keyed by block type, and
/// built-in templates that stand behind them. A custom definition shadows a
/// built-in template of the same type name.
#[derive(Debug)]
pub struct BlockStore {
    blocks: Vec<(String, BlockDefinition)>,
    builtin_templates: Vec<(String, String)>,
}

impl BlockStore {
    /// Both entry lists carry each key once, and each custom entry is keyed
    /// by the type name its definition declares.
    pub closed spec fn wf(&self) -> bool {
        &&& crate::kv::assoc_unique(self.blocks@)
        &&& crate::kv::assoc_unique(self.builtin_templates@)
        &&& forall|i: int|
            0 <= i < self.blocks@.len() ==> (#[trigger] self.blocks@[i].0)@
                == self.blocks@[i].1.deep_view().block_type
    }

    /// The custom definitions, by type name.
    pub closed spec fn custom(&self) -> Map<Seq<char>, BlockDefinitionV> {
        crate::kv::assoc_map(self.blocks@)
    }

    /// The built-in templates, by type name.
    pub closed spec fn builtins(&self) -> Map<Seq<char>, Seq<char>> {
        crate::kv::assoc_map(self.builtin_templates@)
    }

    /// The catalog the compiler sees: each known type name mapped to its
    /// declared parameters and template, custom definitions first.
    pub open spec fn catalog(&self) -> Map<Seq<char>, SchemaV> {
        Map::new(
            |t: Seq<char>| self.custom().contains_key(t) || self.builtins().contains_key(t),
            |t: Seq<char>|
                if self.custom().contains_key(t) {
                    schema_of(self.custom()[t])
                } else {
                    SchemaV { params: Seq::empty(), template: Some(self.builtins()[t]) }
                },
        )
    }

    /// An empty catalog.
    pub fn new() -> (s: Self)
        ensures
            s.wf(),
            s.custom() =~= Map::<Seq<char>, BlockDefinitionV>::empty(),
            s.builtins() =~= Map::<Seq<char>, Seq<char>>::empty(),
    {
        BlockStore { blocks: Vec::new(), builtin_templates: Vec::new() }
    }

    /// Registers the template text of a built-in block type, replacing any
    /// earlier text under that name. Custom definitions are untouched.
    pub fn register_builtin_template(&mut self, block_type: String, template: String)
        requires
            old(self).wf(),
        ensures
            final(self).wf(),
            final(self).builtins() =~= old(self).builtins().insert(block_type@, template@),
            final(self).custom() == old(self).custom(),
    {
        match crate::kv::assoc_index_of(&self.builtin_templates, block_type.as_str()) {
            Some(i) => {
                proof {
                    crate::kv::lemma_assoc_update(
                        self.builtin_templates@,
                        i as int,
                        (block_type, template),
                    );
                    assert(self.builtin_templates@.remove(i as int).insert(
                        i as int,
                        (block_type, template),
                    ) =~= self.builtin_templates@.update(i as int, (block_type, template)));
                }
                self.builtin_templates.remove(i);
                self.builtin_templates.insert(i, (block_type, template));
            },
            None => {
                proof {
                    crate::kv::lemma_assoc_push(self.builtin_templates@, (block_type, template));
                }
                self.builtin_templates.push((block_type, template));
            },
        }
    }

    /// The definition for a block type: the custom definition when one is
    /// registered, else a bare definition carrying the built-in template,
    /// else nothing. `Some` exactly when the catalog knows the type.
    pub fn get(&self, block_type: &str) -> (r: Option<BlockDefinition>)
        requires
            self.wf(),
        ensures
            match r {
                Some(d) => self.catalog().contains_key(block_type@) && d.deep_view() == (
                if self.custom().contains_key(block_type@) {
                    self.custom()[block_type@]
                } else {
                    builtin_def_view(block_type@, self.builtins()[block_type@])
                }) && d.deep_view().block_type == block_type@ && schema_of(d.deep_view())
                    == self.catalog()[block_type@],
                None => !self.catalog().contains_key(block_type@),
            },
    {
        proof {
            crate::kv::lemma_assoc_map_chars(self.blocks@);
            crate::kv::lemma_assoc_map_chars(self.builtin_templates@);
        }
        match crate::kv::assoc_index_of(&self.blocks, block_type) {
            Some(i) => Some(self.blocks[i].1.clone()),
            None => {
                match crate::kv::assoc_index_of(&self.builtin_templates, block_type) {
                    Some(i) => {
                        let d = BlockDefinition {
                            block_type: block_type.to_owned(),
                            message0: String::new(),
                            args0: None,
                            message1: None,
                            args1: None,
                            output: None,
                            previous_statement: None,
                            next_statement: None,
                            colour: 0,
                            tooltip: String::new(),
                            help_url: None,
                            extensions: None,
                            mutator: None,
                            category: None,
                            id: None,
                            created: None,
                            modified: None,
                            rhai_template: Some(self.builtin_templates[i].1.clone()),
                        };
                        Some(d)
                    },
                    None => None,
                }
            },
        }
    }

    /// The custom definitions as a sequence, in registration order.
    pub closed spec fn custom_defs(&self) -> Seq<BlockDefinitionV> {
        Seq::new(self.blocks@.len(), |i: int| self.blocks@[i].1.deep_view())
    }

    /// Every custom definition, in registration order.
    pub fn list(&self) -> (r: Vec<BlockDefinition>)
        requires
            self.wf(),
        ensures
            r.deep_view() =~= self.custom_defs(),
            forall|i: int|
                0 <= i < r@.len() ==> self.custom().contains_key(
                    #[trigger] r@[i].deep_view().block_type,
                ),
    {
        let mut out: Vec<BlockDefinition> = Vec::new();
        let n = self.blocks.len();
        for i in 0..n
            invariant
                n == self.blocks@.len(),
                out@.len() == i,
                self.wf(),
                forall|j: int|
                    0 <= j < i ==> #[trigger] out@[j].deep_view() == self.blocks@[j].1.deep_view(),
        {
            out.push(self.blocks[i].1.clone());
        }
        proof {
            crate::kv::lemma_assoc_map_chars(self.blocks@);
            assert forall|i: int| 0 <= i < out@.len() implies self.custom().contains_key(
                #[trigger] out@[i].deep_view().block_type,
            ) by {
                assert(out@[i].deep_view() == self.blocks@[i].1.deep_view());
                assert(self.blocks@[i].0@ == self.blocks@[i].1.deep_view().block_type);
            }
        }
        out
    }

    /// Registers or replaces a custom definition under the type name it
    /// declares. A definition arriving without an identity is given a fresh
    /// one and a creation time; every write refreshes the modification time;
    /// all other content is stored as given. Built-in templates are
    /// untouched.
    pub fn create_or_update(&mut self, block: BlockDefinition)
        requires
            old(self).wf(),
        ensures
            final(self).wf(),
            final(self).builtins() == old(self).builtins(),
            final(self).custom().contains_key(block.block_type@),
            same_but_meta(final(self).custom()[block.block_type@], block.deep_view()),
            final(self).custom().remove(block.block_type@) =~= old(self).custom().remove(
                block.block_type@,
            ),
    {
        let now = host::now_millis();
        let mut block = block;
        if block.id.is_none() {
            block.id = Some(host::fresh_id());
            block.created = Some(now);
        }
        block.modified = Some(now);
        let key = block.block_type.clone();
        match crate::kv::assoc_index_of(&self.blocks, key.as_str()) {
            Some(i) => {
                proof {
                    crate::kv::lemma_assoc_map_chars(self.blocks@);
                    crate::kv::lemma_assoc_update(self.blocks@, i as int, (key, block));
                    assert(self.blocks@.remove(i as int).insert(i as int, (key, block))
                        =~= self.blocks@.update(i as int, (key, block)));
                }
                self.blocks.remove(i);
                self.blocks.insert(i, (key, block));
            },
            None => {
                proof {
                    crate::kv::lemma_assoc_map_chars(self.blocks@);
                    crate::kv::lemma_assoc_push(self.blocks@, (key, block));
                }
                self.blocks.push((key, block));
            },
        }
        proof {
            assert(self.custom().remove(block.block_type@) =~= old(self).custom().remove(
                block.block_type@,
            ));
        }
    }

    /// Removes the custom definition of a block type, telling whether one
    /// was there. Built-in templates are untouched, so a shadowed built-in
    /// template becomes visible again.
    pub fn delete(&mut self, block_type: &str) -> (r: bool)
        requires
            old(self).wf(),
        ensures
            final(self).wf(),
            r == old(self).custom().contains_key(block_type@),
            final(self).custom() =~= old(self).custom().remove(block_type@),
            final(self).builtins() == old(self).builtins(),
    {
        proof {
            crate::kv::lemma_assoc_map_chars(self.blocks@);
        }
        match crate::kv::assoc_index_of(&self.blocks, block_type) {
            Some(i) => {
                proof {
                    crate::kv::lemma_assoc_remove(self.blocks@, i as int);
                }
                self.blocks.remove(i);
                true
            },
            None => {
                false
            },
        }
    }
}

/// The stored view of a definition differs from the given one at most in its
/// identity and timestamps: a given identity is kept together with its
/// creation time, a missing one is filled in, and the modification time is
/// always set.
pub open spec fn same_but_meta(stored: BlockDefinitionV, given: BlockDefinitionV) -> bool {
    &&& stored == BlockDefinitionV {
        id: stored.id,
        created: stored.created,
        modified: stored.modified,
        ..given
    }
    &&& stored.modified is Some
    &&& (given.id is Some ==> stored.id == given.id && stored.created == given.created)
    &&& (given.id is None ==> stored.id is Some)
}

} // verus!

