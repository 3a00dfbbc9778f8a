//! Centering a value-space rectangle inside a target aspect ratio.
//!
//! The rectangle is a pair of ranges over any number type `T` that has the four
//! arithmetic operators and an order. The contract of [`centering_ranges`] is
//! stated over the specifications of those operators; the laws at the end of
//! the file say what the result means when the arithmetic of `T` is exact.

use core::cmp::Ordering;
use core::ops::{Add, Div, Mul, Range, Sub};
use vstd::prelude::*;
use vstd::std_specs::cmp::PartialOrdSpec;
use vstd::std_specs::convert::IntoSpec;
use vstd::std_specs::ops::{AddSpec, DivSpec, MulSpec, SubSpec};

verus! {

/// The span of a range: its end minus its start.
pub open spec fn span<T: Sub<Output = T>>(range: Range<T>) -> T {
    range.end.sub_spec(range.start)
}

/// One half, obtained from a non-zero value `d` as `d / (d + d)`.
pub open spec fn half_of<T: Add<Output = T> + Div<Output = T>>(d: T) -> T {
    d.div_spec(d.add_spec(d))
}

/// Whether `a < b` holds in the order of `T`.
pub open spec fn less<T: PartialOrd>(a: T, b: T) -> bool {
    a.partial_cmp_spec(&b) == Some(Ordering::Less)
}

/// The destination's width and height, converted to `T`.
pub open spec fn target<T, S: Into<T>>(destination: (S, S)) -> (T, T) {
    (destination.0.into_spec(), destination.1.into_spec())
}

/// Whether the X axis is the one that has to grow: the minimum rectangle is
/// narrower than the target, `sx * dy < sy * dx`.
pub open spec fn x_is_tight<T>(minimum: (Range<T>, Range<T>), d: (T, T)) -> bool where
    T: PartialOrd + Sub<Output = T> + Mul<Output = T>,
 {
    less(span(minimum.0).mul_spec(d.1), span(minimum.1).mul_spec(d.0))
}

/// The X range grown to the span `sy * dx / dy` around its own midpoint.
pub open spec fn grown_x<T>(minimum: (Range<T>, Range<T>), d: (T, T)) -> Range<T> where
    T: Add<Output = T> + Sub<Output = T> + Mul<Output = T> + Div<Output = T>,
 {
    let radius = span(minimum.1).mul_spec(d.0).div_spec(d.1).mul_spec(half_of(d.0));
    let center = minimum.0.start.add_spec(minimum.0.end).mul_spec(half_of(d.0));
    Range { start: center.sub_spec(radius), end: radius.add_spec(center) }
}

/// The Y range grown to the span `sx * dy / dx` around its own midpoint.
pub open spec fn grown_y<T>(minimum: (Range<T>, Range<T>), d: (T, T)) -> Range<T> where
    T: Add<Output = T> + Sub<Output = T> + Mul<Output = T> + Div<Output = T>,
 {
    let radius = span(minimum.0).mul_spec(d.1).div_spec(d.0).mul_spec(half_of(d.0));
    let center = minimum.1.end.add_spec(minimum.1.start).mul_spec(half_of(d.0));
    Range { start: center.sub_spec(radius), end: radius.add_spec(center) }
}

/// The rectangle that [`centering_ranges`] returns for a target `d` already
/// converted to `T`: the tight axis is grown, the other one is kept. When the
/// two aspect ratios agree, the Y axis counts as the tight one.
pub open spec fn centered<T>(minimum: (Range<T>, Range<T>), d: (T, T)) -> (Range<T>, Range<T>) where
    T: PartialOrd + Add<Output = T> + Sub<Output = T> + Mul<Output = T> + Div<Output = T>,
 {
    if x_is_tight(minimum, d) {
        (grown_x(minimum, d), minimum.1)
    } else {
        (minimum.0, grown_y(minimum, d))
    }
}

/// Whether the operators of `T`, and the conversion from `S`, are ones that
/// have a specification: each returns what its specification says.
pub open spec fn specified_operators<T, S>() -> bool where
    T: PartialOrd + Add<Output = T> + Sub<Output = T> + Mul<Output = T> + Div<Output = T>,
    S: Into<T>,
 {
    &&& T::obeys_add_spec()
    &&& T::obeys_sub_spec()
    &&& T::obeys_mul_spec()
    &&& T::obeys_div_spec()
    &&& T::obeys_partial_cmp_spec()
    &&& S::obeys_into_spec()
}

/// Whether every operation that growing a range to the span
/// `scaled / divisor` performs is allowed by `T`: for a machine integer, none
/// of them overflows or divides by zero. `sum_left` and `sum_right` are the
/// two ends of the range, in the order in which they are added.
pub open spec fn growth_defined<T>(
    sum_left: T,
    sum_right: T,
    scaled: T,
    divisor: T,
    half: T,
) -> bool where
    T: Add<Output = T> + Sub<Output = T> + Mul<Output = T> + Div<Output = T>,
 {
    let radius = scaled.div_spec(divisor).mul_spec(half);
    let center = sum_left.add_spec(sum_right).mul_spec(half);
    &&& scaled.div_req(divisor)
    &&& scaled.div_spec(divisor).mul_req(half)
    &&& sum_left.add_req(sum_right)
    &&& sum_left.add_spec(sum_right).mul_req(half)
    &&& center.sub_req(radius)
    &&& radius.add_req(center)
}

/// Whether every operation that [`centering_ranges`] performs on these inputs
/// is allowed by `T`.
pub open spec fn centering_defined<T>(minimum: (Range<T>, Range<T>), d: (T, T)) -> bool where
    T: PartialOrd + Add<Output = T> + Sub<Output = T> + Mul<Output = T> + Div<Output = T>,
 {
    let sx = span(minimum.0);
    let sy = span(minimum.1);
    &&& minimum.0.end.sub_req(minimum.0.start)
    &&& minimum.1.end.sub_req(minimum.1.start)
    &&& d.0.add_req(d.0)
    &&& d.0.div_req(d.0.add_spec(d.0))
    &&& sx.mul_req(d.1)
    &&& sy.mul_req(d.0)
    &&& if x_is_tight(minimum, d) {
        growth_defined(minimum.0.start, minimum.0.end, sy.mul_spec(d.0), d.1, half_of(d.0))
    } else {
        growth_defined(minimum.1.end, minimum.1.start, sx.mul_spec(d.1), d.0, half_of(d.0))
    }
}

/// Expands `minimum` along one axis so that its aspect ratio becomes that of
/// `destination` (a pixel width and height), keeping the midpoint of each axis
/// and shrinking neither.
///
/// With `sx`, `sy` the spans of `minimum` and `dx`, `dy` the destination: if
/// `sx * dy < sy * dx` the X range becomes the one of span `sy * dx / dy`
/// around the midpoint of the old one and the Y range is returned as it is;
/// otherwise the Y range becomes the one of span `sx * dy / dx` around its
/// midpoint and the X range is returned as it is.
pub fn centering_ranges<T, S>(minimum: &(Range<T>, Range<T>), destination: &(S, S)) -> (result: (
    Range<T>,
    Range<T>,
)) where
    T: Copy + PartialOrd + Add<Output = T> + Sub<Output = T> + Mul<Output = T> + Div<Output = T>,
    S: Copy + Into<T>,

    requires
        specified_operators::<T, S>(),
        centering_defined(*minimum, target::<T, S>(*destination)),
    ensures
        result == centered(*minimum, target::<T, S>(*destination)),
{
    let sx = minimum.0.end - minimum.0.start;
    let sy = minimum.1.end - minimum.1.start;
    let dx: T = destination.0.into();
    let dy: T = destination.1.into();
    let half = dx / (dx + dx);
    if sx * dy < sy * dx {
        let radius = sy * dx / dy * half;
        let center = (minimum.0.start + minimum.0.end) * half;
        let s0 = (center - radius)..(radius + center);
        (s0, minimum.1.start..minimum.1.end)
    } else {
        let radius = sx * dy / dx * half;
        let center = (minimum.1.end + minimum.1.start) * half;
        let s1 = (center - radius)..(radius + center);
        (minimum.0.start..minimum.0.end, s1)
    }
}

/// Whether `value` reads the arithmetic of `T` as exact arithmetic: it maps
/// each value of `T` to a real number in such a way that the four operators
/// and the order of `T` become those of the reals. Exact rationals have such
/// a reading; machine integers and floating-point numbers, which round, have
/// none.
pub open spec fn exact_arithmetic<T>(value: spec_fn(T) -> real) -> bool where
    T: PartialOrd + Add<Output = T> + Sub<Output = T> + Mul<Output = T> + Div<Output = T>,
 {
    &&& forall|a: T, b: T| value(#[trigger] a.add_spec(b)) == value(a) + value(b)
    &&& forall|a: T, b: T| value(#[trigger] a.sub_spec(b)) == value(a) - value(b)
    &&& forall|a: T, b: T| value(#[trigger] a.mul_spec(b)) == value(a) * value(b)
    &&& forall|a: T, b: T|
        value(b) != 0real ==> value(#[trigger] a.div_spec(b)) == value(a) / value(b)
    &&& forall|a: T, b: T| #[trigger] less(a, b) <==> value(a) < value(b)
}

/// The span of a range, read as a real number.
pub open spec fn real_span<T>(value: spec_fn(T) -> real, range: Range<T>) -> real {
    value(range.end) - value(range.start)
}

/// The midpoint of a range, read as a real number.
pub open spec fn real_center<T>(value: spec_fn(T) -> real, range: Range<T>) -> real {
    (value(range.start) + value(range.end)) / 2real
}

/// With exact arithmetic and a positive target, the rectangle that
/// [`centering_ranges`] returns has the target's aspect ratio: its X span times
/// the target's height equals its Y span times the target's width.
pub proof fn lemma_centered_has_target_aspect_ratio<T>(
    value: spec_fn(T) -> real,
    minimum: (Range<T>, Range<T>),
    d: (T, T),
) where T: PartialOrd + Add<Output = T> + Sub<Output = T> + Mul<Output = T> + Div<Output = T>
    requires
        exact_arithmetic(value),
        value(d.0) > 0real,
        value(d.1) > 0real,
    ensures
        real_span(value, centered(minimum, d).0) * value(d.1) == real_span(
            value,
            centered(minimum, d).1,
        ) * value(d.0),
{
    let dx = value(d.0);
    let dy = value(d.1);
    let sx = real_span(value, minimum.0);
    let sy = real_span(value, minimum.1);
    lemma_half_is_one_half(value, d.0);
    if x_is_tight(minimum, d) {
        lemma_grown_span(
            value,
            minimum.0.start,
            minimum.0.end,
            span(minimum.1).mul_spec(d.0),
            d.1,
            half_of(d.0),
        );
        assert(real_span(value, grown_x(minimum, d)) == sy * dx / dy);
        assert((sy * dx / dy) * dy == sy * dx) by (nonlinear_arith)
            requires
                dy > 0real,
        ;
    } else {
        lemma_grown_span(
            value,
            minimum.1.end,
            minimum.1.start,
            span(minimum.0).mul_spec(d.1),
            d.0,
            half_of(d.0),
        );
        assert(real_span(value, grown_y(minimum, d)) == sx * dy / dx);
        assert((sx * dy / dx) * dx == sx * dy) by (nonlinear_arith)
            requires
                dx > 0real,
        ;
    }
}

/// With exact arithmetic and a target of non-zero width, the rectangle that
/// [`centering_ranges`] returns has the midpoint of `minimum` on both axes.
pub proof fn lemma_centered_keeps_center<T>(
    value: spec_fn(T) -> real,
    minimum: (Range<T>, Range<T>),
    d: (T, T),
) where T: PartialOrd + Add<Output = T> + Sub<Output = T> + Mul<Output = T> + Div<Output = T>
    requires
        exact_arithmetic(value),
        value(d.0) != 0real,
        value(d.1) != 0real,
    ensures
        real_center(value, centered(minimum, d).0) == real_center(value, minimum.0),
        real_center(value, centered(minimum, d).1) == real_center(value, minimum.1),
{
    lemma_half_is_one_half(value, d.0);
    if x_is_tight(minimum, d) {
        lemma_grown_span(
            value,
            minimum.0.start,
            minimum.0.end,
            span(minimum.1).mul_spec(d.0),
            d.1,
            half_of(d.0),
        );
    } else {
        lemma_grown_span(
            value,
            minimum.1.end,
            minimum.1.start,
            span(minimum.0).mul_spec(d.1),
            d.0,
            half_of(d.0),
        );
    }
}

/// With exact arithmetic and a positive target, neither span of the rectangle
/// that [`centering_ranges`] returns is smaller than that of `minimum`.
pub proof fn lemma_centered_never_shrinks<T>(
    value: spec_fn(T) -> real,
    minimum: (Range<T>, Range<T>),
    d: (T, T),
) where T: PartialOrd + Add<Output = T> + Sub<Output = T> + Mul<Output = T> + Div<Output = T>
    requires
        exact_arithmetic(value),
        value(d.0) > 0real,
        value(d.1) > 0real,
    ensures
        real_span(value, centered(minimum, d).0) >= real_span(value, minimum.0),
        real_span(value, centered(minimum, d).1) >= real_span(value, minimum.1),
{
    let dx = value(d.0);
    let dy = value(d.1);
    let sx = real_span(value, minimum.0);
    let sy = real_span(value, minimum.1);
    lemma_half_is_one_half(value, d.0);
    assert(x_is_tight(minimum, d) <==> sx * dy < sy * dx);
    if x_is_tight(minimum, d) {
        lemma_grown_span(
            value,
            minimum.0.start,
            minimum.0.end,
            span(minimum.1).mul_spec(d.0),
            d.1,
            half_of(d.0),
        );
        assert(sy * dx / dy >= sx) by (nonlinear_arith)
            requires
                dy > 0real,
                sx * dy < sy * dx,
        ;
    } else {
        lemma_grown_span(
            value,
            minimum.1.end,
            minimum.1.start,
            span(minimum.0).mul_spec(d.1),
            d.0,
            half_of(d.0),
        );
        assert(sx * dy / dx >= sy) by (nonlinear_arith)
            requires
                dx > 0real,
                sx * dy >= sy * dx,
        ;
    }
}

/// `d / (d + d)` is one half wherever `d` is not zero.
proof fn lemma_half_is_one_half<T>(value: spec_fn(T) -> real, d: T) where
    T: PartialOrd + Add<Output = T> + Sub<Output = T> + Mul<Output = T> + Div<Output = T>,

    requires
        exact_arithmetic(value),
        value(d) != 0real,
    ensures
        value(half_of(d)) * 2real == 1real,
{
    let x = value(d);
    assert(value(d.add_spec(d)) == x + x);
    assert(value(half_of(d)) == x / (x + x));
    assert((x / (x + x)) * 2real == 1real) by (nonlinear_arith)
        requires
            x != 0real,
    ;
}

/// The range of radius `scaled / divisor * half` around the centre
/// `(left + right) * half` has the span `scaled / divisor` and the same sum of
/// ends as `left` and `right`, when `half` is one half.
proof fn lemma_grown_span<T>(
    value: spec_fn(T) -> real,
    left: T,
    right: T,
    scaled: T,
    divisor: T,
    half: T,
) where T: PartialOrd + Add<Output = T> + Sub<Output = T> + Mul<Output = T> + Div<Output = T>
    requires
        exact_arithmetic(value),
        value(divisor) != 0real,
        value(half) * 2real == 1real,
    ensures
        ({
            let radius = scaled.div_spec(divisor).mul_spec(half);
            let center = left.add_spec(right).mul_spec(half);
            let start = center.sub_spec(radius);
            let end = radius.add_spec(center);
            &&& value(end) - value(start) == value(scaled) / value(divisor)
            &&& value(start) + value(end) == value(left) + value(right)
        }),
{
    let h = value(half);
    let q = value(scaled) / value(divisor);
    let s = value(left) + value(right);
    let radius = scaled.div_spec(divisor).mul_spec(half);
    let center = left.add_spec(right).mul_spec(half);
    assert(value(scaled.div_spec(divisor)) == q);
    assert(value(radius) == q * h);
    assert(value(left.add_spec(right)) == s);
    assert(value(center) == s * h);
    assert(value(center.sub_spec(radius)) == s * h - q * h);
    assert(value(radius.add_spec(center)) == q * h + s * h);
    assert((q * h + s * h) - (s * h - q * h) == q) by (nonlinear_arith)
        requires
            h * 2real == 1real,
    ;
    assert((s * h - q * h) + (q * h + s * h) == s) by (nonlinear_arith)
        requires
            h * 2real == 1real,
    ;
}

} // verus!
