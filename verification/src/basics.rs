use vstd::prelude::*;
use vstd::string::StringExecFns;

verus! {

/// The signed sum of a sequence of machine integers, as a mathematical
/// integer, folded from the left.
pub open spec fn sum_of(s: Seq<i32>) -> int
    decreases s.len(),
{
    if s.len() == 0 {
        0
    } else {
        sum_of(s.drop_last()) + s.last()
    }
}

/// Builds the greeting `"Hello, <name>!"`.
pub fn greet(name: &str) -> (r: String)
    ensures
        r@ == "Hello, "@ + name@ + "!"@,
{
    let mut r = String::new();
    r.append("Hello, ");
    r.append(name);
    r.append("!");
    proof {
        assert(r@ =~= "Hello, "@ + name@ + "!"@);
    }
    r
}

/// Adds up a slice of numbers. Every partial sum must stay inside the
/// `i32` range, as the addition is neither wrapping nor saturating.
pub fn sum(nums: &[i32]) -> (r: i32)
    requires
        forall|k: int|
            0 <= k <= nums@.len() ==> i32::MIN <= #[trigger] sum_of(nums@.take(k)) <= i32::MAX,
    ensures
        r == sum_of(nums@),
{
    let n = nums.len();
    let mut acc: i32 = 0;
    let mut i: usize = 0;
    proof {
        assert(nums@.take(0) =~= Seq::<i32>::empty());
    }
    while i < n
        invariant
            0 <= i <= n,
            n == nums@.len(),
            acc == sum_of(nums@.take(i as int)),
            forall|k: int|
                0 <= k <= nums@.len() ==> i32::MIN <= #[trigger] sum_of(nums@.take(k)) <= i32::MAX,
        decreases n - i,
    {
        proof {
            assert(nums@.take(i + 1).drop_last() =~= nums@.take(i as int));
            assert(nums@.take(i + 1).last() == nums@[i as int]);
            assert(sum_of(nums@.take(i + 1)) == acc + nums@[i as int]);
        }
        acc = acc + nums[i];
        i = i + 1;
    }
    proof {
        assert(nums@.take(n as int) =~= nums@);
    }
    acc
}

/// Negates a boolean.
pub fn flip(b: bool) -> (r: bool)
    ensures
        r == !b,
{
    !b
}

/// The squares of the even numbers up to and including `n`, in increasing
/// order. The bound keeps every square inside the `u32` range.
pub fn even_squares(n: u32) -> (r: Vec<u32>)
    requires
        n <= 65535,
    ensures
        r@.len() == n as int / 2 + 1,
        forall|k: int| 0 <= k < r@.len() ==> (#[trigger] r@[k]) as int == 4 * k * k,
{
    let m = n / 2;
    let mut r: Vec<u32> = Vec::new();
    let mut j: u32 = 0;
    while j <= m
        invariant
            m == n as int / 2,
            m <= 32767,
            0 <= j <= m + 1,
            r@.len() == j as int,
            forall|k: int| 0 <= k < j as int ==> (#[trigger] r@[k]) as int == 4 * k * k,
        decreases m + 1 - j,
    {
        let x = 2 * j;
        proof {
            assert(x as int * x as int == 4 * (j as int) * (j as int) && x as int * x as int
                <= 4294836196) by (nonlinear_arith)
                requires
                    x as int == 2 * (j as int),
                    0 <= j as int <= 32767,
            ;
        }
        let sq = x * x;
        r.push(sq);
        j = j + 1;
    }
    r
}

} // verus!
