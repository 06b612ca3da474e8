use vstd::prelude::*;

use crate::errs::Error;
use crate::text::joined;

verus! {

/// The address that the active context gave for one graphics function.
#[derive(Debug)]
pub struct Resolution {
    pub name: String,
    pub address: usize,
}

/// Every graphics function resolved to a non-null address.
pub open spec fn all_resolved(rs: Seq<Resolution>) -> bool {
    forall|i: int| 0 <= i < rs.len() ==> #[trigger] rs[i].address != 0
}

/// `i` is the first entry whose address is null.
pub open spec fn first_missing(rs: Seq<Resolution>, i: int) -> bool {
    &&& 0 <= i < rs.len()
    &&& rs[i].address == 0
    &&& forall|j: int| 0 <= j < i ==> #[trigger] rs[j].address != 0
}

/// The error that reports the function `name` as missing.
pub open spec fn names_missing(e: Error, name: Seq<char>) -> bool {
    match e {
        Error::GlInit { context } => context@ == "missing function "@ + name,
        _ => false,
    }
}

/// Index of the first null address in `rs` at or after `i`; the length of
/// `rs` when there is none.
pub open spec fn first_null_from(rs: Seq<Resolution>, i: int) -> int
    decreases rs.len() - i,
{
    if i < 0 || i >= rs.len() {
        rs.len() as int
    } else if rs[i].address == 0 {
        i
    } else {
        first_null_from(rs, i + 1)
    }
}

/// Index of the first null address in `rs`; its length when there is none.
pub open spec fn first_null(rs: Seq<Resolution>) -> int {
    first_null_from(rs, 0)
}

/// `e` is the error for the first function in `rs` that is missing.
pub open spec fn build_error(rs: Seq<Resolution>, e: Error) -> bool {
    first_missing(rs, first_null(rs)) && names_missing(e, rs[first_null(rs)].name@)
}

/// Position of the first function whose address is null, or the number of
/// functions when every one resolved.
pub fn first_null_index(resolved: &Vec<Resolution>) -> (r: usize)
    ensures
        r == first_null(resolved@),
        r <= resolved@.len(),
        r == resolved@.len() <==> all_resolved(resolved@),
        r < resolved@.len() ==> first_missing(resolved@, r as int),
{
    let mut i: usize = 0;
    while i < resolved.len()
        invariant
            0 <= i <= resolved@.len(),
            forall|j: int| 0 <= j < i ==> #[trigger] resolved@[j].address != 0,
            first_null_from(resolved@, 0) == first_null_from(resolved@, i as int),
        decreases resolved@.len() - i,
    {
        if resolved[i].address == 0 {
            return i;
        }
        i = i + 1;
    }
    i
}

/// The graphics function table: each required function with its address.
/// No entry holds a null address.
#[derive(Debug)]
pub struct FunctionTable {
    entries: Vec<Resolution>,
}

impl FunctionTable {
    /// Every entry of every table has a non-null address.
    #[verifier::type_invariant]
    spec fn inv(&self) -> bool {
        all_resolved(self.entries@)
    }
}

impl View for FunctionTable {
    type V = Seq<Resolution>;

    closed spec fn view(&self) -> Seq<Resolution> {
        self.entries@
    }
}

impl FunctionTable {
    /// Builds the table from the addresses the loader obtained, in the order it
    /// asked for them. A null address fails the whole table, naming the first
    /// function that is missing; no table is ever partly filled.
    pub fn build(resolved: Vec<Resolution>) -> (r: Result<FunctionTable, Error>)
        ensures
            r is Ok <==> all_resolved(resolved@),
            r is Ok ==> r->Ok_0@ == resolved@,
            r is Err ==> build_error(resolved@, r->Err_0),
    {
        let k = first_null_index(&resolved);
        if k < resolved.len() {
            let context = joined("missing function ", resolved[k].name.as_str());
            Err(Error::GlInit { context })
        } else {
            Ok(FunctionTable { entries: resolved })
        }
    }

    /// Number of functions in the table.
    pub fn count(&self) -> (r: usize)
        ensures
            r == self@.len(),
    {
        self.entries.len()
    }

    /// Address of the function at `index`, in loading order.
    pub fn address(&self, index: usize) -> (r: usize)
        requires
            index < self@.len(),
        ensures
            r == self@[index as int].address,
            r != 0,
    {
        proof {
            use_type_invariant(self);
        }
        self.entries[index].address
    }
}

/// A table that was built holds every function it was built from, each at a
/// non-null address, and its count is the number of functions asked for.
pub proof fn lemma_table_complete(resolved: Seq<Resolution>, t: FunctionTable)
    requires
        t@ == resolved,
        all_resolved(resolved),
    ensures
        t@.len() == resolved.len(),
        forall|i: int| 0 <= i < t@.len() ==> #[trigger] t@[i].address != 0 && t@[i].name == resolved[i].name,
{
}

} // verus!
