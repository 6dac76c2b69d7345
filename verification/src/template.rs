//! Registry of raw template texts by block type, with the basic check that a
//! template names at least one variable.

use vstd::prelude::*;

verus! {

broadcast use vstd::std_specs::vec::group_vec_axioms;

/// The variables a template is rendered against, named for one block type.
#[derive(Debug)]
pub struct TemplateContext {
    pub variables: Vec<(String, String)>,
    pub block_type: String,
}

/// Whether `sub` occurs contiguously somewhere in `s`.
pub open spec fn has_marker(s: Seq<char>, sub: Seq<char>) -> bool {
    exists|i: int| 0 <= i <= s.len() - sub.len() && #[trigger] s.subrange(i, i + sub.len() as int) == sub
}

/// Whether `s` holds both an opening `{{` and a closing `}}` marker, the
/// shape every usable template has.
pub open spec fn spec_template_valid(s: Seq<char>) -> bool {
    has_marker(s, "{{"@) && has_marker(s, "}}"@)
}

fn contains_sub(s: &str, sub: &str) -> (r: bool)
    requires
        1 <= sub@.len(),
    ensures
        r == has_marker(s@, sub@),
{
    let n = s.unicode_len();
    let m = sub.unicode_len();
    if m > n {
        return false;
    }
    let mut i: usize = 0;
    while i <= n - m
        invariant
            n == s@.len(),
            m == sub@.len(),
            1 <= m <= n,
            i <= n,
            forall|p: int|
                0 <= p < i ==> #[trigger] s@.subrange(p, p + sub@.len() as int) != sub@,
        decreases n - i,
    {
        let mut j: usize = 0;
        let mut matches = true;
        while j < m
            invariant
                n == s@.len(),
                m == sub@.len(),
                i + m <= n,
                j <= m,
                matches ==> forall|q: int| 0 <= q < j ==> s@[i + q] == sub@[q],
                !matches ==> s@.subrange(i as int, i + sub@.len() as int) != sub@,
            decreases m - j,
        {
            if s.get_char(i + j) != sub.get_char(j) {
                proof {
                    assert(s@.subrange(i as int, i + sub@.len() as int)[j as int] == s@[i + j]);
                }
                matches = false;
                j = m;
            } else {
                j = j + 1;
            }
        }
        if matches {
            proof {
                assert(s@.subrange(i as int, i + sub@.len() as int) =~= sub@);
            }
            return true;
        }
        i = i + 1;
    }
    proof {
        assert forall|p: int| 0 <= p <= s@.len() - sub@.len() implies #[trigger] s@.subrange(
            p,
            p + sub@.len() as int,
        ) != sub@ by {
            assert(p < i);
        }
    }
    false
}

/// Raw template texts, one per block type.
#[derive(Debug)]
pub struct TemplateManager {
    templates: Vec<(String, String)>,
}

impl TemplateManager {
    /// The registered templates: block type to template text.
    pub closed spec fn templates_map(&self) -> Map<Seq<char>, Seq<char>> {
        crate::kv::assoc_map(self.templates@)
    }

    /// Each block type is registered at most once.
    pub closed spec fn wf(&self) -> bool {
        crate::kv::assoc_unique(self.templates@)
    }

    /// An empty registry.
    pub fn new() -> (s: Self)
        ensures
            s.wf(),
            s.templates_map() =~= Map::<Seq<char>, Seq<char>>::empty(),
    {
        TemplateManager { templates: Vec::new() }
    }

    /// Registers `template` under `block_type`, replacing any earlier text.
    pub fn register_template(&mut self, block_type: String, template: String)
        requires
            old(self).wf(),
        ensures
            final(self).wf(),
            final(self).templates_map() =~= old(self).templates_map().insert(
                block_type@,
                template@,
            ),
    {
        match crate::kv::assoc_index_of(&self.templates, block_type.as_str()) {
            Some(i) => {
                proof {
                    crate::kv::lemma_assoc_update(self.templates@, i as int, (block_type, template));
                    assert(self.templates@.remove(i as int).insert(i as int, (block_type, template))
                        =~= self.templates@.update(i as int, (block_type, template)));
                }
                self.templates.remove(i);
                self.templates.insert(i, (block_type, template));
            },
            None => {
                proof {
                    crate::kv::lemma_assoc_push(self.templates@, (block_type, template));
                }
                self.templates.push((block_type, template));
            },
        }
    }

    /// The template registered for `block_type`, if any.
    pub fn get_template<'a>(&'a self, block_type: &str) -> (r: Option<&'a String>)
        requires
            self.wf(),
        ensures
            match r {
                Some(t) => self.templates_map().contains_key(block_type@)
                    && self.templates_map()[block_type@] == t@,
                None => !self.templates_map().contains_key(block_type@),
            },
    {
        proof {
            crate::kv::lemma_assoc_map_chars(self.templates@);
        }
        match crate::kv::assoc_index_of(&self.templates, block_type) {
            Some(i) => Some(&self.templates[i].1),
            None => None,
        }
    }

    /// Accepts exactly the templates that hold both an opening and a closing
    /// variable marker; everything else is rejected with one fixed message.
    pub fn validate_template(&self, template: &str) -> (r: Result<(), String>)
        ensures
            r is Ok <==> spec_template_valid(template@),
            r is Err ==> r->Err_0@ == "Template must contain at least one variable"@,
    {
        proof {
            reveal_strlit("{{");
            reveal_strlit("}}");
        }
        if !contains_sub(template, "{{") || !contains_sub(template, "}}") {
            Err("Template must contain at least one variable".to_owned())
        } else {
            Ok(())
        }
    }
}

} // verus!
