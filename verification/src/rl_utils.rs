//! Policy-side utilities: joint ordering, target conversion, vector
//! rotation, and the action filters.
//!
//! Values are fixed point: angles in microradians, dimensionless factors
//! in thousandths, and unit-scale quantities (quaternion components) in
//! millionths.

use vstd::prelude::*;

verus! {

use vstd::arithmetic::div_mod::lemma_div_is_ordered;
use vstd::arithmetic::div_mod::lemma_div_pos_is_pos;
use vstd::math::abs;
use vstd::string::StrSliceExecFns;

/// Joint ordering used by the trained policy's action vector.
pub fn mujoco_joints_order() -> (r: Vec<&'static str>)
    ensures
        r@.len() == 16,
        r@[0]@ == "left_hip_yaw"@,
        r@[1]@ == "left_hip_roll"@,
        r@[2]@ == "left_hip_pitch"@,
        r@[3]@ == "left_knee"@,
        r@[4]@ == "left_ankle"@,
        r@[5]@ == "neck_pitch"@,
        r@[6]@ == "head_pitch"@,
        r@[7]@ == "head_yaw"@,
        r@[8]@ == "head_roll"@,
        r@[9]@ == "left_antenna"@,
        r@[10]@ == "right_antenna"@,
        r@[11]@ == "right_hip_yaw"@,
        r@[12]@ == "right_hip_roll"@,
        r@[13]@ == "right_hip_pitch"@,
        r@[14]@ == "right_knee"@,
        r@[15]@ == "right_ankle"@,
{
    let mut v: Vec<&'static str> = Vec::new();
    v.push("left_hip_yaw");
    v.push("left_hip_roll");
    v.push("left_hip_pitch");
    v.push("left_knee");
    v.push("left_ankle");
    v.push("neck_pitch");
    v.push("head_pitch");
    v.push("head_yaw");
    v.push("head_roll");
    v.push("left_antenna");
    v.push("right_antenna");
    v.push("right_hip_yaw");
    v.push("right_hip_roll");
    v.push("right_hip_pitch");
    v.push("right_knee");
    v.push("right_ankle");
    v
}

/// `needle` occurs as a contiguous run somewhere in `hay`.
pub open spec fn contains_subseq(hay: Seq<char>, needle: Seq<char>) -> bool {
    exists|i: int|
        0 <= i && i + needle.len() <= hay.len() && #[trigger] hay.subrange(i, i + needle.len())
            == needle
}

/// Substring search over characters.
pub fn str_contains_chars(hay: &str, needle: &str) -> (r: bool)
    ensures
        r == contains_subseq(hay@, needle@),
{
    let hl = hay.unicode_len();
    let nl = needle.unicode_len();
    if nl > hl {
        assert(!contains_subseq(hay@, needle@));
        return false;
    }
    if nl == 0 {
        proof {
            assert(hay@.subrange(0, 0 + needle@.len() as int) =~= needle@);
        }
        return true;
    }
    let mut start: usize = 0;
    while start <= hl - nl
        invariant
            1 <= nl <= hl,
            hl == hay@.len(),
            nl == needle@.len(),
            0 <= start <= hl - nl + 1,
            forall|s: int|
                0 <= s < start ==> #[trigger] hay@.subrange(s, s + needle@.len()) != needle@,
        decreases hl - start,
    {
        let mut j: usize = 0;
        let mut mismatch: bool = false;
        while j < nl
            invariant
                1 <= nl <= hl,
                hl == hay@.len(),
                nl == needle@.len(),
                0 <= start <= hl - nl,
                0 <= j <= nl,
                !mismatch ==> forall|k: int| 0 <= k < j ==> hay@[start + k] == needle@[k],
                mismatch ==> hay@.subrange(start as int, start + needle@.len()) != needle@,
            decreases nl - j,
        {
            let hc = hay.get_char(start + j);
            let nc = needle.get_char(j);
            if hc != nc {
                proof {
                    assert(hay@.subrange(start as int, start + needle@.len())[j as int]
                        == hay@[start + j]);
                }
                mismatch = true;
                j = nl;
            } else {
                j = j + 1;
            }
        }
        if !mismatch {
            proof {
                assert(hay@.subrange(start as int, start + needle@.len()) =~= needle@);
            }
            return true;
        }
        start = start + 1;
    }
    proof {
        assert forall|i: int|
            0 <= i && i + needle@.len() <= hay@.len() implies #[trigger] hay@.subrange(
            i,
            i + needle@.len(),
        ) != needle@ by {
            assert(i < start);
        }
    }
    false
}

/// A joint name designates a cosmetic antenna servo rather than a
/// controlled degree of freedom.
pub open spec fn is_antenna_name(name: Seq<char>) -> bool {
    contains_subseq(name, "antenna"@)
}

/// Check whether a joint name designates an antenna servo.
pub fn joint_is_antenna(name: &str) -> (r: bool)
    ensures
        r == is_antenna_name(name@),
{
    str_contains_chars(name, "antenna")
}

/// Quotient truncated toward zero, as Rust's `/` computes it.
pub open spec fn div_trunc(a: int, b: int) -> int {
    if a >= 0 {
        a / b
    } else {
        -((-a) / b)
    }
}

/// Truncated division bound: shrinking the numerator's magnitude can
/// only shrink the quotient's magnitude.
pub proof fn lemma_div_trunc_bound(a: int, b: int, m: int)
    requires
        b > 0,
        m >= 0,
        -m <= a <= m,
    ensures
        -(m / b) <= div_trunc(a, b) <= m / b,
{
    if a >= 0 {
        lemma_div_is_ordered(a, m, b);
        lemma_div_pos_is_pos(a, b);
    } else {
        lemma_div_is_ordered(-a, m, b);
        lemma_div_pos_is_pos(-a, b);
    }
}

/// Truncated division of machine integers with a positive divisor.
pub fn i64_div_trunc(a: i64, b: i64) -> (r: i64)
    requires
        b > 0,
    ensures
        r == div_trunc(a as int, b as int),
{
    match a.checked_div(b) {
        Some(q) => q,
        None => 0,  // unreachable: the divisor is positive
    }
}

/// Absolute target for one joint: nominal offset plus the scaled action,
/// with the scale in thousandths.
pub open spec fn pd_target_spec(action: int, offset: int, scale_milli: int) -> int {
    offset + div_trunc(action * scale_milli, 1000)
}

/// Convert action-scale offsets to absolute PD targets, element by
/// element.
pub fn action_to_pd_targets(action: &[i64], offset: &[i64], scale_milli: i64) -> (r: Vec<i64>)
    requires
        action@.len() == offset@.len(),
        forall|i: int|
            0 <= i < action@.len() ==> -1_000_000_000_000 <= #[trigger] action@[i]
                <= 1_000_000_000_000,
        forall|i: int|
            0 <= i < offset@.len() ==> -1_000_000_000_000 <= #[trigger] offset@[i]
                <= 1_000_000_000_000,
        -1_000_000 <= scale_milli <= 1_000_000,
    ensures
        r@.len() == action@.len(),
        forall|i: int|
            0 <= i < r@.len() ==> r@[i] == pd_target_spec(
                action@[i] as int,
                offset@[i] as int,
                scale_milli as int,
            ),
{
    let mut out: Vec<i64> = Vec::new();
    let mut i: usize = 0;
    while i < action.len()
        invariant
            0 <= i <= action@.len(),
            action@.len() == offset@.len(),
            forall|k: int|
                0 <= k < action@.len() ==> -1_000_000_000_000 <= #[trigger] action@[k]
                    <= 1_000_000_000_000,
            forall|k: int|
                0 <= k < offset@.len() ==> -1_000_000_000_000 <= #[trigger] offset@[k]
                    <= 1_000_000_000_000,
            -1_000_000 <= scale_milli <= 1_000_000,
            out@.len() == i,
            forall|k: int|
                0 <= k < i ==> out@[k] == pd_target_spec(
                    action@[k] as int,
                    offset@[k] as int,
                    scale_milli as int,
                ),
        decreases action@.len() - i,
    {
        let a = action[i];
        let o = offset[i];
        proof {
            assert(-1_000_000_000_000_000_000 <= a * scale_milli <= 1_000_000_000_000_000_000)
                by (nonlinear_arith)
                requires
                    -1_000_000_000_000 <= a <= 1_000_000_000_000,
                    -1_000_000 <= scale_milli <= 1_000_000,
            ;
            lemma_div_trunc_bound(a * scale_milli, 1000, 1_000_000_000_000_000_000);
        }
        let scaled = i64_div_trunc(a * scale_milli, 1000);
        out.push(o + scaled);
        i = i + 1;
    }
    out
}

/// Product of two unit-scale fixed-point values (millionths): multiply
/// and drop back to millionths.
pub open spec fn fp_mul(a: int, b: int) -> int {
    div_trunc(a * b, 1_000_000)
}

/// Fixed-point multiply of a quaternion component (within twice unit
/// scale) with a vector component (within a hundred units).
fn fp_mul_qv(a: i64, b: i64) -> (r: i64)
    requires
        -2_000_000 <= a <= 2_000_000,
        -100_000_000 <= b <= 100_000_000,
    ensures
        r == fp_mul(a as int, b as int),
        -200_000_000 <= r <= 200_000_000,
{
    proof {
        assert(-200_000_000_000_000 <= a * b <= 200_000_000_000_000) by (nonlinear_arith)
            requires
                -2_000_000 <= a <= 2_000_000,
                -100_000_000 <= b <= 100_000_000,
        ;
        lemma_div_trunc_bound(a * b, 1_000_000, 200_000_000_000_000);
    }
    i64_div_trunc(a * b, 1_000_000)
}

/// One component of the cross product of two unit-scale vectors.
pub open spec fn cross_spec(a: Seq<i64>, b: Seq<i64>, i: int) -> int {
    if i == 0 {
        fp_mul(a[1] as int, b[2] as int) - fp_mul(a[2] as int, b[1] as int)
    } else if i == 1 {
        fp_mul(a[2] as int, b[0] as int) - fp_mul(a[0] as int, b[2] as int)
    } else {
        fp_mul(a[0] as int, b[1] as int) - fp_mul(a[1] as int, b[0] as int)
    }
}

/// Dot product of two unit-scale vectors.
pub open spec fn dot_spec(a: Seq<i64>, b: Seq<i64>) -> int {
    fp_mul(a[0] as int, b[0] as int) + fp_mul(a[1] as int, b[1] as int) + fp_mul(
        a[2] as int,
        b[2] as int,
    )
}

/// One component of a vector rotated by the inverse of a quaternion
/// `[x, y, z, w]`, all in millionths.
pub open spec fn quat_rotate_inverse_spec(q: Seq<i64>, v: Seq<i64>, i: int) -> int {
    let w = q[3] as int;
    let two_w2_minus_one = 2 * fp_mul(w, w) - 1_000_000;
    let a = fp_mul(v[i] as int, two_w2_minus_one);
    let b = 2 * fp_mul(cross_spec(q, v, i), w);
    let c = 2 * fp_mul(q[i] as int, dot_spec(q, v));
    a - b + c
}

/// All quaternion components within twice unit scale and all vector
/// components within a hundred units: the ranges the rotation arithmetic
/// is proved overflow-free for.
pub open spec fn quat_inputs_bounded(q: Seq<i64>, v: Seq<i64>) -> bool {
    &&& forall|i: int| 0 <= i < 4 ==> -2_000_000 <= #[trigger] q[i] <= 2_000_000
    &&& forall|i: int| 0 <= i < 3 ==> -100_000_000 <= #[trigger] v[i] <= 100_000_000
}

/// Rotate a vector by the inverse of a quaternion `[x, y, z, w]`.
///
/// Components are unit-scale fixed point (millionths); the vector may
/// carry accelerations of up to a hundred units.
pub fn quat_rotate_inverse(q: &[i64; 4], v: &[i64; 3]) -> (r: [i64; 3])
    requires
        quat_inputs_bounded(q@, v@),
    ensures
        forall|i: int| 0 <= i < 3 ==> r@[i] == quat_rotate_inverse_spec(q@, v@, i),
{
    let w = q[3];
    let w2 = fp_mul_ww(w, w);
    let two_w2_minus_one = 2 * w2 - 1_000_000;
    let cross0 = fp_mul_qv(q[1], v[2]) - fp_mul_qv(q[2], v[1]);
    let cross1 = fp_mul_qv(q[2], v[0]) - fp_mul_qv(q[0], v[2]);
    let cross2 = fp_mul_qv(q[0], v[1]) - fp_mul_qv(q[1], v[0]);
    let dot = fp_mul_qv(q[0], v[0]) + fp_mul_qv(q[1], v[1]) + fp_mul_qv(q[2], v[2]);
    let r0 = fp_mul_big(v[0], two_w2_minus_one) - 2 * fp_mul_big(cross0, w) + 2 * fp_mul_big(
        q[0],
        dot,
    );
    let r1 = fp_mul_big(v[1], two_w2_minus_one) - 2 * fp_mul_big(cross1, w) + 2 * fp_mul_big(
        q[1],
        dot,
    );
    let r2 = fp_mul_big(v[2], two_w2_minus_one) - 2 * fp_mul_big(cross2, w) + 2 * fp_mul_big(
        q[2],
        dot,
    );
    let r = [r0, r1, r2];
    proof {
        assert(fp_mul(cross0 as int, w as int) == fp_mul(cross_spec(q@, v@, 0), q@[3] as int));
        assert(fp_mul(cross1 as int, w as int) == fp_mul(cross_spec(q@, v@, 1), q@[3] as int));
        assert(fp_mul(cross2 as int, w as int) == fp_mul(cross_spec(q@, v@, 2), q@[3] as int));
        assert(r@[0] == quat_rotate_inverse_spec(q@, v@, 0));
        assert(r@[1] == quat_rotate_inverse_spec(q@, v@, 1));
        assert(r@[2] == quat_rotate_inverse_spec(q@, v@, 2));
    }
    r
}

/// Fixed-point multiply of two quaternion components.
fn fp_mul_ww(a: i64, b: i64) -> (r: i64)
    requires
        -2_000_000 <= a <= 2_000_000,
        -2_000_000 <= b <= 2_000_000,
    ensures
        r == fp_mul(a as int, b as int),
        -4_000_000 <= r <= 4_000_000,
{
    proof {
        assert(-4_000_000_000_000 <= a * b <= 4_000_000_000_000) by (nonlinear_arith)
            requires
                -2_000_000 <= a <= 2_000_000,
                -2_000_000 <= b <= 2_000_000,
        ;
        lemma_div_trunc_bound(a * b, 1_000_000, 4_000_000_000_000);
    }
    i64_div_trunc(a * b, 1_000_000)
}

/// The name-to-target pairs selected from the first `k` joints: each
/// non-antenna joint whose index has an action value contributes its
/// name and that value, in joint order.
pub open spec fn action_pairs_upto(names: Seq<String>, action: Seq<i64>, k: int) -> Seq<
    (Seq<char>, i64),
>
    decreases k,
{
    if k <= 0 {
        Seq::empty()
    } else {
        action_pairs_upto(names, action, k - 1) + (if !is_antenna_name(names[k - 1]@) && k - 1
            < action.len() {
            seq![(names[k - 1]@, action[k - 1])]
        } else {
            Seq::empty()
        })
    }
}

/// Pair an ordered action array with joint names, leaving out the
/// cosmetic antenna joints and any index beyond the action's length.
pub fn make_action_dict(action: &[i64], joint_names: &Vec<String>) -> (r: Vec<(String, i64)>)
    ensures
        r@.map_values(|p: (String, i64)| (p.0@, p.1)) == action_pairs_upto(
            joint_names@,
            action@,
            joint_names@.len() as int,
        ),
{
    let mut out: Vec<(String, i64)> = Vec::new();
    let mut i: usize = 0;
    while i < joint_names.len()
        invariant
            0 <= i <= joint_names@.len(),
            out@.map_values(|p: (String, i64)| (p.0@, p.1)) == action_pairs_upto(
                joint_names@,
                action@,
                i as int,
            ),
        decreases joint_names@.len() - i,
    {
        let name: &String = &joint_names[i];
        if !joint_is_antenna(name.as_str()) && i < action.len() {
            out.push((name.clone(), action[i]));
        }
        proof {
            assert(out@.map_values(|p: (String, i64)| (p.0@, p.1)) =~= action_pairs_upto(
                joint_names@,
                action@,
                i + 1,
            ));
        }
        i = i + 1;
    }
    out
}

/// Simple moving-average action filter: keeps the last `window_size`
/// action vectors and averages them component by component.
pub struct ActionFilter {
    /// Number of most recent vectors averaged.
    pub window_size: usize,
    /// The retained vectors, oldest first.
    pub buffer: Vec<Vec<i64>>,
}

impl ActionFilter {
    /// The retained vectors as a sequence of sequences.
    pub open spec fn model(&self) -> Seq<Seq<i64>> {
        Seq::new(self.buffer@.len(), |r: int| self.buffer@[r]@)
    }

    /// Width of the vectors in the buffer (zero while empty).
    pub open spec fn width(&self) -> int {
        if self.buffer@.len() == 0 {
            0
        } else {
            self.buffer@[0]@.len() as int
        }
    }

    /// The filter's invariant: a bounded window, no more rows than the
    /// window admits, and rows of one common width with bounded values.
    pub open spec fn well_formed(&self) -> bool {
        &&& 1 <= self.window_size <= 1000
        &&& self.buffer@.len() <= self.window_size
        &&& forall|r: int|
            0 <= r < self.buffer@.len() ==> (#[trigger] self.buffer@[r]@).len() == self.width()
        &&& forall|r: int, c: int|
            0 <= r < self.buffer@.len() && 0 <= c < self.buffer@[r]@.len()
                ==> -1_000_000_000_000 <= #[trigger] self.buffer@[r]@[c] <= 1_000_000_000_000
    }

    /// Create an empty filter with the given window.
    pub fn new(window_size: usize) -> (r: Self)
        requires
            1 <= window_size <= 1000,
        ensures
            r.well_formed(),
            r.window_size == window_size,
            r.model() =~= Seq::<Seq<i64>>::empty(),
    {
        ActionFilter { window_size, buffer: Vec::new() }
    }

    /// Append an action vector, discarding the oldest one when the
    /// window is full.
    pub fn push(&mut self, action: &[i64])
        requires
            old(self).well_formed(),
            forall|c: int|
                0 <= c < action@.len() ==> -1_000_000_000_000 <= #[trigger] action@[c]
                    <= 1_000_000_000_000,
            old(self).buffer@.len() > 0 ==> action@.len() == old(self).width(),
        ensures
            final(self).well_formed(),
            final(self).window_size == old(self).window_size,
            final(self).model() == (if old(self).model().len() + 1 > old(self).window_size {
                old(self).model().push(action@).drop_first()
            } else {
                old(self).model().push(action@)
            }),
    {
        let row = vstd::slice::slice_to_vec(action);
        self.buffer.push(row);
        if self.buffer.len() > self.window_size {
            self.buffer.remove(0);
            proof {
                assert(self.model() =~= old(self).model().push(action@).drop_first());
            }
        } else {
            proof {
                assert(self.model() =~= old(self).model().push(action@));
            }
        }
    }

    /// Sum of column `c` over all rows.
    pub open spec fn col_sum(d: Seq<Seq<i64>>, c: int) -> int
        decreases d.len(),
    {
        if d.len() == 0 {
            0
        } else {
            Self::col_sum(d.drop_last(), c) + d.last()[c]
        }
    }

    /// Average of column `c`, truncated toward zero.
    pub open spec fn col_avg(d: Seq<Seq<i64>>, c: int) -> int {
        div_trunc(Self::col_sum(d, c), d.len() as int)
    }

    proof fn lemma_col_sum_take_step(d: Seq<Seq<i64>>, c: int, j: int)
        requires
            0 <= j < d.len(),
        ensures
            Self::col_sum(d.take(j + 1), c) == Self::col_sum(d.take(j), c) + d[j][c],
    {
        assert(d.take(j + 1).drop_last() =~= d.take(j));
        assert(d.take(j + 1).last() == d[j]);
    }

    /// The component-wise average of the retained vectors; empty while
    /// nothing has been pushed.
    pub fn get_filtered_action(&self) -> (r: Vec<i64>)
        requires
            self.well_formed(),
        ensures
            r@.len() == (if self.model().len() == 0 {
                0int
            } else {
                self.width()
            }),
            forall|c: int| 0 <= c < r@.len() ==> r@[c] == Self::col_avg(self.model(), c),
    {
        if self.buffer.len() == 0 {
            return Vec::new();
        }
        let count = self.buffer.len();
        let n = self.buffer[0].len();
        let mut out: Vec<i64> = Vec::new();
        let mut c: usize = 0;
        while c < n
            invariant
                self.well_formed(),
                1 <= count == self.buffer@.len(),
                n == self.width(),
                0 <= c <= n,
                out@.len() == c,
                forall|k: int| 0 <= k < c ==> out@[k] == Self::col_avg(self.model(), k),
            decreases n - c,
        {
            let mut acc: i64 = 0;
            let mut j: usize = 0;
            while j < count
                invariant
                    self.well_formed(),
                    1 <= count == self.buffer@.len(),
                    n == self.width(),
                    0 <= c < n,
                    0 <= j <= count,
                    acc == Self::col_sum(self.model().take(j as int), c as int),
                    -1_000_000_000_000 * j <= acc <= 1_000_000_000_000 * j,
                decreases count - j,
            {
                let row: &Vec<i64> = &self.buffer[j];
                proof {
                    Self::lemma_col_sum_take_step(self.model(), c as int, j as int);
                }
                acc = acc + row[c];
                j = j + 1;
            }
            proof {
                assert(self.model().take(count as int) =~= self.model());
            }
            let avg = i64_div_trunc(acc, count as i64);
            out.push(avg);
            c = c + 1;
        }
        out
    }
}

/// One update of the first-order low-pass filter: the retained value
/// moves from `y` toward the target `x`, keeping `alpha` thousandths of
/// its distance.
pub open spec fn lp_step(y: int, x: int, alpha: int) -> int {
    x + div_trunc(alpha * (y - x), 1000)
}

/// The retained value after `k` filter updates toward a constant
/// target `x`.
pub open spec fn iter_lp(y: int, x: int, alpha: int, k: nat) -> int
    decreases k,
{
    if k == 0 {
        y
    } else {
        iter_lp(lp_step(y, x, alpha), x, alpha, (k - 1) as nat)
    }
}

/// A filter update lands between the old value and the target.
pub proof fn lemma_lp_step_between(y: int, x: int, alpha: int)
    requires
        0 <= alpha < 1000,
    ensures
        y >= x ==> x <= lp_step(y, x, alpha) <= y,
        y < x ==> y <= lp_step(y, x, alpha) <= x,
{
    let d = y - x;
    if d >= 0 {
        assert(0 <= alpha * d <= 1000 * d) by (nonlinear_arith)
            requires
                0 <= alpha < 1000,
                d >= 0,
        ;
        lemma_div_pos_is_pos(alpha * d, 1000);
        lemma_div_is_ordered(alpha * d, 1000 * d, 1000);
        vstd::arithmetic::div_mod::lemma_div_multiples_vanish(d, 1000);
    } else {
        assert(0 <= alpha * (-d) <= 1000 * (-d)) by (nonlinear_arith)
            requires
                0 <= alpha < 1000,
                d < 0,
        ;
        assert(alpha * (-d) == -(alpha * d)) by (nonlinear_arith);
        lemma_div_pos_is_pos(alpha * (-d), 1000);
        lemma_div_is_ordered(alpha * (-d), 1000 * (-d), 1000);
        vstd::arithmetic::div_mod::lemma_div_multiples_vanish(-d, 1000);
    }
}

/// A filter update strictly shrinks a nonzero distance to the target.
pub proof fn lemma_lp_step_contracts(y: int, x: int, alpha: int)
    requires
        0 <= alpha < 1000,
        y != x,
    ensures
        abs(lp_step(y, x, alpha) - x) <= abs(y - x) - 1,
{
    let d = y - x;
    let m = abs(d) as int;
    assert(0 <= alpha * m <= 999 * m) by (nonlinear_arith)
        requires
            0 <= alpha < 1000,
            m >= 1,
    ;
    assert(-(alpha * m) <= alpha * d <= alpha * m) by (nonlinear_arith)
        requires
            alpha >= 0,
            -m <= d <= m,
    ;
    lemma_div_trunc_bound(alpha * d, 1000, alpha * m);
    lemma_div_is_ordered(alpha * m, 999 * m, 1000);
    assert((999 * m) / 1000 <= m - 1) by {
        assert(999 * m < 1000 * m) by (nonlinear_arith)
            requires
                m >= 1,
        ;
        vstd::arithmetic::div_mod::lemma_multiply_divide_lt(999 * m, 1000, m);
    }
    assert(abs(alpha * d) == alpha * m) by (nonlinear_arith)
        requires
            m == abs(d),
            alpha >= 0,
    ;
}

/// Low-pass convergence: feeding the same target repeatedly drives the
/// retained value to the target exactly, within as many updates as the
/// initial distance in fixed-point units.
pub proof fn lemma_low_pass_converges(y: int, x: int, alpha: int, k: nat)
    requires
        0 <= alpha < 1000,
        k >= abs(y - x),
    ensures
        iter_lp(y, x, alpha, k) == x,
    decreases k,
{
    if y == x {
        if k > 0 {
            assert(lp_step(x, x, alpha) == x) by {
                assert(alpha * (x - x) == 0) by (nonlinear_arith);
                assert(div_trunc(0, 1000) == 0);
            }
            lemma_low_pass_converges(lp_step(y, x, alpha), x, alpha, (k - 1) as nat);
        }
    } else {
        lemma_lp_step_contracts(y, x, alpha);
        lemma_low_pass_converges(lp_step(y, x, alpha), x, alpha, (k - 1) as nat);
    }
}

/// First-order low-pass action filter, removing high-frequency jitter
/// from the commanded targets.
pub struct LowPassActionFilter {
    /// Smoothing coefficient in thousandths: the fraction of the old
    /// value kept at each update.
    pub alpha_milli: i64,
    /// The retained (smoothed) vector.
    pub last_action: Vec<i64>,
    /// The most recently pushed target vector.
    pub current_action: Vec<i64>,
    /// Whether anything has been pushed yet.
    pub initialized: bool,
}

impl LowPassActionFilter {
    /// The filter's invariant: a proper coefficient, matching vector
    /// lengths, and bounded values.
    pub open spec fn well_formed(&self) -> bool {
        &&& 0 <= self.alpha_milli < 1000
        &&& self.last_action@.len() == self.current_action@.len()
        &&& forall|i: int|
            0 <= i < self.last_action@.len() ==> -1_000_000_000_000 <= #[trigger] self
                .last_action@[i] <= 1_000_000_000_000
        &&& forall|i: int|
            0 <= i < self.current_action@.len() ==> -1_000_000_000_000 <= #[trigger] self
                .current_action@[i] <= 1_000_000_000_000
    }

    /// Create a filter for the given control and cutoff frequencies, in
    /// hertz.  The coefficient is the ratio of the cutoff period to the
    /// sum of both periods, in thousandths.
    pub fn new(control_freq: i64, cutoff_frequency: i64) -> (r: Self)
        requires
            1 <= control_freq <= 1_000_000,
            1 <= cutoff_frequency <= 1_000_000,
        ensures
            r.well_formed(),
            r.alpha_milli == (1000 * control_freq) / (control_freq + cutoff_frequency),
            !r.initialized,
            r.last_action@.len() == 0,
            r.current_action@.len() == 0,
    {
        let alpha = match (1000 * control_freq).checked_div_euclid(
            control_freq + cutoff_frequency,
        ) {
            Some(a) => a,
            None => 0,  // unreachable: the divisor is positive
        };
        proof {
            lemma_div_pos_is_pos(1000 * control_freq, control_freq + cutoff_frequency);
            assert(1000 * control_freq < 1000 * (control_freq + cutoff_frequency))
                by (nonlinear_arith)
                requires
                    cutoff_frequency >= 1,
                    control_freq >= 1,
            ;
            vstd::arithmetic::div_mod::lemma_multiply_divide_lt(
                1000 * control_freq,
                control_freq + cutoff_frequency,
                1000,
            );
        }
        LowPassActionFilter {
            alpha_milli: alpha,
            last_action: Vec::new(),
            current_action: Vec::new(),
            initialized: false,
        }
    }

    /// Feed a new target vector.  The first push also seeds the
    /// retained value.
    pub fn push(&mut self, action: &[i64])
        requires
            old(self).well_formed(),
            forall|i: int|
                0 <= i < action@.len() ==> -1_000_000_000_000 <= #[trigger] action@[i]
                    <= 1_000_000_000_000,
            old(self).initialized ==> action@.len() == old(self).last_action@.len(),
        ensures
            final(self).well_formed(),
            final(self).initialized,
            final(self).alpha_milli == old(self).alpha_milli,
            final(self).current_action@ == action@,
            final(self).last_action@ == (if old(self).initialized {
                old(self).last_action@
            } else {
                action@
            }),
    {
        if !self.initialized {
            self.last_action = vstd::slice::slice_to_vec(action);
            self.initialized = true;
        }
        self.current_action = vstd::slice::slice_to_vec(action);
    }

    /// Advance the retained vector one step toward the current target
    /// and return it.
    pub fn get_filtered_action(&mut self) -> (r: Vec<i64>)
        requires
            old(self).well_formed(),
        ensures
            final(self).well_formed(),
            final(self).alpha_milli == old(self).alpha_milli,
            final(self).initialized == old(self).initialized,
            final(self).current_action@ == old(self).current_action@,
            final(self).last_action@.len() == old(self).last_action@.len(),
            forall|i: int|
                0 <= i < final(self).last_action@.len() ==> final(self).last_action@[i]
                    == lp_step(
                    old(self).last_action@[i] as int,
                    old(self).current_action@[i] as int,
                    old(self).alpha_milli as int,
                ),
            r@ == final(self).last_action@,
    {
        let n = self.last_action.len();
        let mut out: Vec<i64> = Vec::new();
        let mut i: usize = 0;
        while i < n
            invariant
                self.well_formed(),
                n == self.last_action@.len(),
                0 <= i <= n,
                out@.len() == i,
                forall|k: int|
                    0 <= k < i ==> out@[k] == lp_step(
                        self.last_action@[k] as int,
                        self.current_action@[k] as int,
                        self.alpha_milli as int,
                    ),
                forall|k: int|
                    0 <= k < i ==> -1_000_000_000_000 <= #[trigger] out@[k]
                        <= 1_000_000_000_000,
            decreases n - i,
        {
            let y = self.last_action[i];
            let x = self.current_action[i];
            proof {
                assert(-2_000_000_000_000_000 <= self.alpha_milli * (y - x)
                    <= 2_000_000_000_000_000) by (nonlinear_arith)
                    requires
                        0 <= self.alpha_milli < 1000,
                        -2_000_000_000_000 <= y - x <= 2_000_000_000_000,
                ;
                lemma_div_trunc_bound(
                    self.alpha_milli * (y - x),
                    1000,
                    2_000_000_000_000_000,
                );
                lemma_lp_step_between(y as int, x as int, self.alpha_milli as int);
            }
            let delta = i64_div_trunc(self.alpha_milli * (y - x), 1000);
            out.push(x + delta);
            i = i + 1;
        }
        self.last_action = vstd::slice::slice_to_vec(out.as_slice());
        out
    }
}

/// Fixed-point multiply for the outer products of the rotation formula:
/// one operand within a thousand units, the other within ten thousand.
fn fp_mul_big(a: i64, b: i64) -> (r: i64)
    requires
        -1_000_000_000 <= a <= 1_000_000_000,
        -8_000_000_000 <= b <= 8_000_000_000,
    ensures
        r == fp_mul(a as int, b as int),
        -8_000_000_000_000 <= r <= 8_000_000_000_000,
{
    proof {
        assert((a as int) * (b as int) <= 8_000_000_000_000_000_000 && (a as int) * (b as int)
            >= -8_000_000_000_000_000_000) by (nonlinear_arith)
            requires
                -1_000_000_000 <= a <= 1_000_000_000,
                -8_000_000_000 <= b <= 8_000_000_000,
        ;
        lemma_div_trunc_bound(a * b, 1_000_000, 8_000_000_000_000_000_000);
    }
    i64_div_trunc(a * b, 1_000_000)
}

} // verus!
