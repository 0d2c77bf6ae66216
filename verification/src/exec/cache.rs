//! The method code cache: a lazily filled, per-class memo of where
//! each method's `Code` attribute sits.
//!
//! On the first request for a method index the cache scans the
//! method's attributes for its `Code` attribute and remembers the
//! position (or its absence); later requests answer from the memo.

use vstd::prelude::*;

use crate::parse::attribute::{attr_view, Attribute, Code};
use crate::parse::classfile::ClassFile;
use crate::parse::method::{first_code, methods_view, MethodV};

verus! {

/// Whether a memo entry is truthful for a method with these attributes:
/// either there is no `Code` attribute, or the recorded position holds
/// the first one.
pub open spec fn cache_entry_ok(attrs: Seq<crate::parse::attribute::AttributeV>, e: Option<
    usize,
>) -> bool {
    match e {
        None => first_code(attrs) is None,
        Some(j) => {
            &&& j < attrs.len()
            &&& attrs[j as int] is Code
            &&& first_code(attrs) == Some(attrs[j as int]->Code_0)
        },
    }
}

/// A memo of the `Code` attribute positions of one class's methods.
pub struct Cache {
    /// One slot per method: unresolved, or the resolved position.
    pub entries: Vec<Option<Option<usize>>>,
    /// The methods this cache answers for.
    pub methods: Ghost<Seq<MethodV>>,
}

impl Cache {
    /// The cache's invariant: one slot per method, every resolved slot
    /// truthful.
    pub open spec fn wf(&self) -> bool {
        &&& self.entries@.len() == self.methods@.len()
        &&& forall|i: int|
            0 <= i < self.entries@.len() ==> match #[trigger] self.entries@[i] {
                None => true,
                Some(e) => cache_entry_ok(self.methods@[i].attributes, e),
            }
    }

    /// An empty cache for the methods of `class`.
    pub fn new(class: &ClassFile) -> (r: Cache)
        ensures
            r.wf(),
            r.methods@ == methods_view(class.methods@),
    {
        let n = class.methods.len();
        let mut entries: Vec<Option<Option<usize>>> = Vec::new();
        let mut i: usize = 0;
        while i < n
            invariant
                i <= n,
                entries@.len() == i,
                forall|k: int| 0 <= k < i ==> #[trigger] entries@[k] is None,
            decreases n - i,
        {
            entries.push(None);
            i = i + 1;
        }
        Cache { entries, methods: Ghost(methods_view(class.methods@)) }
    }

    /// The `Code` attribute of the method at `index`, memoizing where
    /// it was found.  Yields nothing for an index past the method list
    /// or a method without a body.
    pub fn get<'a>(&mut self, class: &'a ClassFile, index: usize) -> (r: Option<&'a Code>)
        requires
            old(self).wf(),
            old(self).methods@ == methods_view(class.methods@),
        ensures
            final(self).wf(),
            final(self).methods@ == old(self).methods@,
            match r {
                Some(c) => {
                    &&& index < class.methods@.len()
                    &&& first_code(class.methods@[index as int]@.attributes) == Some(c@)
                },
                None => index >= class.methods@.len() || first_code(
                    class.methods@[index as int]@.attributes,
                ) is None,
            },
    {
        if index >= class.methods.len() {
            return None;
        }
        let method = &class.methods[index];
        let cached = self.entries[index];
        let resolved: Option<usize> = match cached {
            Some(e) => e,
            None => {
                let e = method.code_attribute_index();
                self.entries.set(index, Some(e));
                e
            },
        };
        match resolved {
            Some(j) => {
                proof {
                    assert(self.methods@[index as int] == method@);
                    assert(method@.attributes[j as int] == attr_view(
                        method.attributes[j as int],
                    ));
                }
                match &method.attributes[j] {
                    Attribute::Code(code) => Some(code),
                    _ => vstd::pervasive::unreached(),
                }
            },
            None => None,
        }
    }
}

} // verus!
