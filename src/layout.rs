//! Data-layout strings, as LLVM writes them: components separated by `-`.
//! Two components matter here: the byte-order marker (`E` big endian, `e`
//! little endian), which a layout of this library leads with, and the pointer
//! specification `p:<size>[:<abi>...]` of the default address space.
use vstd::prelude::*;

verus! {

/// Byte order of the target.
#[derive(Clone, Copy, Debug, PartialEq, Eq, Structural)]
pub enum Endian {
    Little,
    Big,
}

/// The character that marks `e` in a data layout.
pub open spec fn endian_marker(e: Endian) -> char {
    match e {
        Endian::Big => 'E',
        Endian::Little => 'e',
    }
}

/// `dl` begins with the component that consists of the marker `m` alone.
pub open spec fn begins_with_marker(dl: Seq<char>, m: char) -> bool {
    &&& dl.len() >= 1
    &&& dl[0] == m
    &&& (dl.len() == 1 || dl[1] == '-')
}

pub open spec fn is_digit(c: char) -> bool {
    '0' <= c && c <= '9'
}

pub open spec fn digit_value(c: char) -> nat {
    (c as nat - '0' as nat) as nat
}

/// The number written by the decimal digits `s`, most significant first.
pub open spec fn decimal_value(s: Seq<char>) -> nat
    decreases s.len(),
{
    if s.len() == 0 {
        0
    } else {
        decimal_value(s.drop_last()) * 10 + digit_value(s.last())
    }
}

/// Position `i` of `dl` starts a component.
pub open spec fn starts_component(dl: Seq<char>, i: int) -> bool {
    0 <= i <= dl.len() && (i == 0 || dl[i - 1] == '-')
}

/// Position `j` of `dl` ends the size field of a pointer specification.
pub open spec fn ends_size_field(dl: Seq<char>, j: int) -> bool {
    j == dl.len() || dl[j] == ':' || dl[j] == '-'
}

/// The component at `i` is `p:<size>...` and its size field, which ends at `j`,
/// is a non-empty run of digits that spells `width`.
pub open spec fn pointer_spec_at(dl: Seq<char>, i: int, j: int, width: nat) -> bool {
    &&& starts_component(dl, i)
    &&& i + 2 < j <= dl.len()
    &&& dl[i] == 'p'
    &&& dl[i + 1] == ':'
    &&& (forall|k: int| i + 2 <= k < j ==> is_digit(#[trigger] dl[k]))
    &&& ends_size_field(dl, j)
    &&& decimal_value(dl.subrange(i + 2, j)) == width
}

/// `dl` holds a pointer specification for the default address space whose size
/// is `width` bits.
pub open spec fn declares_pointer_size(dl: Seq<char>, width: nat) -> bool {
    exists|i: int, j: int| pointer_spec_at(dl, i, j, width)
}

/// Whether `dl` leads with the byte-order marker of `e`.
pub fn leads_with_marker(dl: &str, e: Endian) -> (r: bool)
    ensures
        r == begins_with_marker(dl@, endian_marker(e)),
{
    let n = dl.unicode_len();
    if n == 0 {
        return false;
    }
    let m = match e {
        Endian::Big => 'E',
        Endian::Little => 'e',
    };
    dl.get_char(0) == m && (n == 1 || dl.get_char(1) == '-')
}

/// Whether the component at `i` of `dl`, which reads `p:`, has a size field that
/// spells `width`.
fn size_field_spells(dl: &str, i: usize, width: u32) -> (r: bool)
    requires
        starts_component(dl@, i as int),
        i + 2 <= dl@.len(),
        dl@[i as int] == 'p',
        dl@[i + 1] == ':',
    ensures
        r == exists|j: int| pointer_spec_at(dl@, i as int, j, width as nat),
{
    let n = dl.unicode_len();
    let mut j: usize = i + 2;
    let mut val: u64 = 0;
    let mut big = false;
    loop
        invariant
            n == dl@.len(),
            i + 2 <= j <= n,
            starts_component(dl@, i as int),
            forall|k: int| i + 2 <= k < j ==> is_digit(#[trigger] dl@[k]),
            !big ==> val == decimal_value(dl@.subrange(i + 2, j as int)),
            big ==> decimal_value(dl@.subrange(i + 2, j as int)) > 4294967295,
            val <= 4294967295,
        ensures
            i + 2 <= j <= n,
            j == n || !is_digit(dl@[j as int]),
            forall|k: int| i + 2 <= k < j ==> is_digit(#[trigger] dl@[k]),
            !big ==> val == decimal_value(dl@.subrange(i + 2, j as int)),
            big ==> decimal_value(dl@.subrange(i + 2, j as int)) > 4294967295,
        decreases n - j,
    {
        if j == n {
            break;
        }
        let c = dl.get_char(j);
        if !('0' <= c && c <= '9') {
            break;
        }
        let d = (c as u32 - '0' as u32) as u64;
        proof {
            let s = dl@.subrange(i + 2, j + 1);
            assert(s.drop_last() =~= dl@.subrange(i + 2, j as int));
            assert(s.last() == c);
        }
        if !big {
            let next = val * 10 + d;
            if next > 4294967295 {
                big = true;
            } else {
                val = next;
            }
        }
        j = j + 1;
    }
    let ends = j == n || dl.get_char(j) == ':' || dl.get_char(j) == '-';
    let r = j > i + 2 && ends && !big && val == width as u64;
    proof {
        if r {
            assert(pointer_spec_at(dl@, i as int, j as int, width as nat));
        } else {
            assert forall|j2: int| !pointer_spec_at(dl@, i as int, j2, width as nat) by {
                if pointer_spec_at(dl@, i as int, j2, width as nat) {
                    if j2 < j {
                        assert(is_digit(dl@[j2]));
                    } else if j2 > j {
                        assert(is_digit(dl@[j as int]));
                    }
                }
            }
        }
    }
    r
}

/// Whether `dl` declares pointers of `width` bits in the default address space.
pub fn declares_pointer_width(dl: &str, width: u32) -> (r: bool)
    ensures
        r == declares_pointer_size(dl@, width as nat),
{
    let n = dl.unicode_len();
    let mut i: usize = 0;
    while i < n
        invariant
            n == dl@.len(),
            i <= n,
            forall|a: int, b: int| 0 <= a < i ==> !pointer_spec_at(dl@, a, b, width as nat),
        decreases n - i,
    {
        if (i == 0 || dl.get_char(i - 1) == '-') && n - i >= 2 && dl.get_char(i) == 'p'
            && dl.get_char(i + 1) == ':' {
            if size_field_spells(dl, i, width) {
                return true;
            }
        }
        i = i + 1;
    }
    proof {
        assert forall|a: int, b: int| !pointer_spec_at(dl@, a, b, width as nat) by {
            if pointer_spec_at(dl@, a, b, width as nat) {
                assert(0 <= a < i);
            }
        }
    }
    false
}

} // verus!
