//! What the library takes on trust. Nothing here is proved: each item
//! states what Verus is to believe of a type or a function of the
//! `tikv_client` crate or of std.

use vstd::prelude::*;

verus! {

/// `tikv_client::Config`, the settings of a client: certificate paths and a
/// request timeout. The managers never read it; they keep it and hand it on.
#[verifier::external_type_specification]
#[verifier::external_body]
pub struct ExConfig(tikv_client::Config);

/// `tikv_client::Error`, the one error type of the client. The managers
/// never look inside it; an error that comes in goes out as it is.
#[verifier::external_type_specification]
#[verifier::external_body]
pub struct ExError(tikv_client::Error);

/// `tikv_client::Timestamp`, what the placement driver answers when asked
/// for the current timestamp. The managers drop it unread.
#[verifier::external_type_specification]
#[verifier::external_body]
pub struct ExTimestamp(tikv_client::Timestamp);

/// `Clone::clone` of `tikv_client::Config`, which the crate derives: the
/// copy holds the same paths and the same timeout, so it is the same
/// configuration.
pub assume_specification[ <tikv_client::Config as Clone>::clone ](
    config: &tikv_client::Config,
) -> (copy: tikv_client::Config)
    ensures
        copy == *config,
;

/// `From::from` of a type to itself, std's `impl<T> From<T> for T`, which
/// returns its argument unchanged. It is what `Into::into` comes to where
/// an endpoint is given as a `String`.
pub assume_specification<Any>[ <Any as From<Any>>::from ](value: Any) -> (same: Any)
    ensures
        same == value,
;

/// `From::from` of a `&str` to a `String`, which copies the text to the
/// heap: the string holds the characters of the slice. It is what
/// `Into::into` comes to where an endpoint is given as a `&str`.
pub assume_specification<'a, 'b>[ <String as From<&'a str>>::from ](text: &'b str) -> (owned:
    String)
    ensures
        owned@ == text@,
;

} // verus!
