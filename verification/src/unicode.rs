//! The Unicode character properties that the URI grammar is stated over.
//!
//! The standard library decides both properties from the tables of the
//! Unicode Character Database. The tables are not restated here: each
//! property has a name, and the standard method is taken to compute it.

use vstd::prelude::*;

verus! {

/// Whether `c` has the Unicode property `Lowercase`.
pub uninterp spec fn unicode_lowercase(c: char) -> bool;

/// Whether `c` has the Unicode property `Alphabetic` or is a Unicode number.
pub uninterp spec fn unicode_alphanumeric(c: char) -> bool;

/// `char::is_lowercase` is trusted to decide the property `Lowercase` of its
/// argument, and to depend on nothing else.
pub assume_specification[ char::is_lowercase ](c: char) -> (b: bool)
    ensures
        b == unicode_lowercase(c),
;

/// `char::is_alphanumeric` is trusted to decide whether its argument is
/// alphabetic or numeric, and to depend on nothing else.
pub assume_specification[ char::is_alphanumeric ](c: char) -> (b: bool)
    ensures
        b == unicode_alphanumeric(c),
;

} // verus!
