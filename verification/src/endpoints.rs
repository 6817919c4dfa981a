//! Endpoints come in as anything that turns into a `String`, and are kept
//! as owned strings, in the order given.

use vstd::prelude::*;

verus! {

/// `kept` is `given` turned into owned strings: as many entries, in the
/// same order, each one a string that `Into::into` gives for the entry it
/// stands for.
pub open spec fn endpoints_kept<S: Into<String>>(given: Seq<S>, kept: Seq<String>) -> bool {
    &&& kept.len() == given.len()
    &&& forall|i: int|
        0 <= i < given.len() ==> call_ensures(
            <S as Into<String>>::into,
            (given[i],),
            #[trigger] kept[i],
        )
}

/// Turns every endpoint into an owned string, keeping the order.
pub fn owned_endpoints<S>(pd_endpoints: Vec<S>) -> (owned: Vec<String>) where S: Into<String>
    ensures
        endpoints_kept(pd_endpoints@, owned@),
{
    let mut owned: Vec<String> = Vec::new();
    for endpoint in given: pd_endpoints.into_iter()
        invariant
            owned.len() == given.index(),
            forall|i: int|
                0 <= i < owned.len() ==> call_ensures(
                    <S as Into<String>>::into,
                    (given.seq()[i],),
                    #[trigger] owned[i],
                ),
    {
        owned.push(endpoint.into());
    }
    owned
}

/// Endpoints that are given as owned strings are kept as they are.
pub proof fn lemma_owned_endpoints_unchanged(given: Seq<String>, kept: Seq<String>)
    requires
        endpoints_kept(given, kept),
    ensures
        kept == given,
{
    assert(kept =~= given);
}

/// Endpoints that are given as string slices are kept with their text.
pub proof fn lemma_borrowed_endpoints_keep_text(given: Seq<&str>, kept: Seq<String>)
    requires
        endpoints_kept(given, kept),
    ensures
        kept.len() == given.len(),
        forall|i: int| 0 <= i < given.len() ==> (#[trigger] kept[i])@ == given[i]@,
{
}

} // verus!
