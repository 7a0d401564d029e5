//! Fixed-capacity storage from `heapless`, used by the wire types: the bar
//! values of a chart and the label of a widget.
use vstd::prelude::*;
use vstd::string::StringSliceAdditionalSpecFns;

verus! {

/// Number of bars in a bar chart.
pub const CHART_BARS: usize = 64;

/// Maximum length of a widget label, in UTF-8 bytes.
pub const LABEL_CAPACITY: usize = 32;

#[verifier::external_type_specification]
#[verifier::external_body]
#[verifier::reject_recursive_types(T)]
pub struct ExHeaplessVec<T, const N: usize>(heapless::Vec<T, N>);

#[verifier::external_type_specification]
#[verifier::external_body]
pub struct ExHeaplessString<const N: usize>(heapless::String<N>);

/// `Clone` of `heapless::String`; nothing is stated of the copy here, since
/// the statement is made for every capacity at once.
pub assume_specification<const N: usize>[ <heapless::String<N> as Clone>::clone ](s: &heapless::String<N>) -> heapless::String<N>;

/// `Clone` of `heapless::Vec`; nothing is stated of the copy here, since the
/// statement is made for every element type at once.
pub assume_specification<T, const N: usize>[ <heapless::Vec<T, N> as Clone>::clone ](v: &heapless::Vec<T, N>) -> heapless::Vec<T, N>
    where
        T: Clone,
;

/// The values held by a bar-value vector, in order.
pub uninterp spec fn bar_values(v: heapless::Vec<u8, 64>) -> Seq<u8>;

/// The UTF-8 bytes held by a label, in order.
pub uninterp spec fn label_bytes(s: heapless::String<32>) -> Seq<u8>;

/// `heapless::Vec::new`: an empty vector.
#[verifier::external_body]
pub(crate) fn bar_values_new() -> (v: heapless::Vec<u8, 64>)
    ensures
        bar_values(v) == Seq::<u8>::empty(),
{
    heapless::Vec::new()
}

/// `heapless::Vec::push`: appends the value when fewer than 64 are held,
/// else hands it back and leaves the vector as it was.
#[verifier::external_body]
pub(crate) fn bar_values_push(v: &mut heapless::Vec<u8, 64>, x: u8) -> (r: Result<(), u8>)
    ensures
        bar_values(*old(v)).len() < 64 ==> r is Ok && bar_values(*final(v)) == bar_values(*old(v)).push(x),
        bar_values(*old(v)).len() >= 64 ==> (r matches Err(y) && y == x) && bar_values(*final(v)) == bar_values(*old(v)),
        bar_values(*final(v)).len() <= 64,
{
    v.push(x)
}

/// `heapless::Vec::as_slice`, copied into a `Vec`: the values held.
#[verifier::external_body]
pub(crate) fn bar_values_to_vec(v: &heapless::Vec<u8, 64>) -> (r: Vec<u8>)
    ensures
        r@ == bar_values(*v),
        r@.len() <= 64,
{
    v.as_slice().to_vec()
}

/// `heapless::String::new`: an empty label.
#[verifier::external_body]
pub(crate) fn label_new() -> (s: heapless::String<32>)
    ensures
        label_bytes(s) == Seq::<u8>::empty(),
{
    heapless::String::new()
}

/// `heapless::String::push_str`: appends the UTF-8 bytes of `t` when they fit
/// in the 32 bytes of capacity, else fails and leaves the label as it was.
#[verifier::external_body]
pub(crate) fn label_push_str(s: &mut heapless::String<32>, t: &str) -> (r: Result<(), ()>)
    ensures
        label_bytes(*old(s)).len() + t.spec_bytes().len() <= 32 ==> r is Ok
            && label_bytes(*final(s)) == label_bytes(*old(s)) + t.spec_bytes(),
        label_bytes(*old(s)).len() + t.spec_bytes().len() > 32 ==> r is Err
            && label_bytes(*final(s)) == label_bytes(*old(s)),
{
    s.push_str(t)
}

/// `heapless::String::as_str`: the label as a string slice over its bytes.
#[verifier::external_body]
pub(crate) fn label_as_str(s: &heapless::String<32>) -> (r: &str)
    ensures
        r.spec_bytes() == label_bytes(*s),
{
    s.as_str()
}

/// A label holding the text `t`, or `None` when its UTF-8 encoding is longer
/// than the label's capacity.
pub fn label_from_str(t: &str) -> (r: Option<heapless::String<32>>)
    ensures
        r is Some <==> t.spec_bytes().len() <= LABEL_CAPACITY,
        r matches Some(s) ==> label_bytes(s) == t.spec_bytes(),
{
    let mut s = label_new();
    match label_push_str(&mut s, t) {
        Ok(()) => {
            assert(label_bytes(s) == t.spec_bytes());
            Some(s)
        },
        Err(()) => None,
    }
}

} // verus!
