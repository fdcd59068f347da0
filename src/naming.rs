//! File naming: hex and decimal digits, a model of `/`-separated paths, and the
//! names of the temporary and debug files that stripping produces.
use vstd::prelude::*;

verus! {

/// The sixteen digits, lower case.
pub open spec fn digit_alphabet() -> Seq<char> {
    seq!['0', '1', '2', '3', '4', '5', '6', '7', '8', '9', 'a', 'b', 'c', 'd', 'e', 'f']
}

/// Two lower-case hex digits of one byte.
pub open spec fn hex_byte(b: u8) -> Seq<char> {
    seq![digit_alphabet()[(b / 16) as int], digit_alphabet()[(b % 16) as int]]
}

/// Lower-case hex of a byte sequence, two digits per byte.
pub open spec fn hex_bytes(s: Seq<u8>) -> Seq<char>
    decreases s.len(),
{
    if s.len() == 0 {
        Seq::empty()
    } else {
        hex_bytes(s.drop_last()) + hex_byte(s.last())
    }
}

/// Decimal digits of a natural number, without leading zeros.
pub open spec fn dec(n: nat) -> Seq<char>
    decreases n,
{
    if n < 10 {
        seq![digit_alphabet()[n as int]]
    } else {
        dec(n / 10) + seq![digit_alphabet()[(n % 10) as int]]
    }
}

/// Where the last component of a path starts: just after its last `/`.
pub open spec fn name_start(p: Seq<char>) -> int
    decreases p.len(),
{
    if p.len() == 0 {
        0
    } else if p.last() == '/' {
        p.len() as int
    } else {
        name_start(p.drop_last())
    }
}

/// The last component of a path, if it is not empty.
pub open spec fn file_name_of(p: Seq<char>) -> Option<Seq<char>> {
    let n = p.subrange(name_start(p), p.len() as int);
    if n.len() == 0 {
        None
    } else {
        Some(n)
    }
}

/// Index of the last `.` in a name, or -1.
pub open spec fn last_dot(n: Seq<char>) -> int
    decreases n.len(),
{
    if n.len() == 0 {
        -1
    } else if n.last() == '.' {
        n.len() - 1
    } else {
        last_dot(n.drop_last())
    }
}

/// The last component of a path without its extension; a leading dot starts no
/// extension.
pub open spec fn file_stem_of(p: Seq<char>) -> Option<Seq<char>> {
    match file_name_of(p) {
        None => None,
        Some(n) => if last_dot(n) <= 0 {
            Some(n)
        } else {
            Some(n.subrange(0, last_dot(n)))
        },
    }
}

/// A name placed in a directory.
pub open spec fn join_path(dir: Seq<char>, name: Seq<char>) -> Seq<char> {
    if dir.len() == 0 {
        name
    } else if dir.last() == '/' {
        dir + name
    } else {
        dir + seq!['/'] + name
    }
}

/// Name of the stripped copy of the artifact at position `index` whose file stem
/// is `stem`.
pub open spec fn stripped_temp_name(stem: Seq<char>, index: nat) -> Seq<char> {
    stem + seq!['.', 't', 'm', 'p'] + dec(index) + seq!['-', 's', 't', 'r', 'i', 'p', 'p', 'e', 'd']
}

/// Install path of the detached debug file for a build identifier:
/// `usr/lib/debug/.build-id/<first byte>/<other bytes>.debug`.
pub open spec fn build_id_debug_path(id: Seq<u8>) -> Seq<char>
    recommends
        id.len() > 0,
{
    "usr/lib/debug/.build-id/"@ + hex_byte(id[0]) + seq!['/'] + hex_bytes(id.drop_first())
        + ".debug"@
}

/// Install path of the detached debug file when no build identifier is known:
/// the install path, without a leading `/`, under `usr/lib/debug/`, with `.debug`
/// appended.
pub open spec fn fallback_debug_path(target: Seq<char>) -> Seq<char> {
    let rel = if target.len() > 0 && target[0] == '/' {
        target.drop_first()
    } else {
        target
    };
    "usr/lib/debug/"@ + rel + ".debug"@
}

/// One digit, as a string.
fn digit_str(n: u8) -> (r: &'static str)
    requires
        n < 16,
    ensures
        r@ == seq![digit_alphabet()[n as int]],
{
    let digits: &'static str = "0123456789abcdef";
    proof {
        reveal_strlit("0123456789abcdef");
        assert(digits@ =~= digit_alphabet());
    }
    let r = digits.substring_char(n as usize, n as usize + 1);
    assert(r@ =~= seq![digit_alphabet()[n as int]]);
    r
}

/// Appends the two hex digits of `b`.
pub fn push_hex_byte(out: &mut String, b: u8)
    ensures
        final(out)@ == old(out)@ + hex_byte(b),
{
    out.append(digit_str(b / 16));
    out.append(digit_str(b % 16));
    assert(final(out)@ =~= old(out)@ + hex_byte(b));
}

/// Lower-case hex of `bytes`.
pub fn hex_string(bytes: &[u8]) -> (r: String)
    ensures
        r@ == hex_bytes(bytes@),
{
    let mut out = String::new();
    let mut i: usize = 0;
    while i < bytes.len()
        invariant
            i <= bytes@.len(),
            out@ == hex_bytes(bytes@.subrange(0, i as int)),
        decreases bytes@.len() - i,
    {
        proof {
            let next = bytes@.subrange(0, i as int + 1);
            assert(next.drop_last() =~= bytes@.subrange(0, i as int));
        }
        push_hex_byte(&mut out, bytes[i]);
        i = i + 1;
    }
    assert(bytes@.subrange(0, i as int) =~= bytes@);
    out
}

/// Decimal digits of `n`.
pub fn decimal(n: usize) -> (r: String)
    ensures
        r@ == dec(n as nat),
    decreases n,
{
    if n < 10 {
        let r = String::from_str(digit_str(n as u8));
        r
    } else {
        let mut r = decimal(n / 10);
        r.append(digit_str((n % 10) as u8));
        r
    }
}

/// The last component of `p`, if it is not empty.
pub fn file_name(p: &str) -> (r: Option<String>)
    ensures
        match r {
            Some(s) => file_name_of(p@) == Some(s@),
            None => file_name_of(p@).is_none(),
        },
{
    let len = p.unicode_len();
    let mut start = len;
    assert(p@.subrange(0, len as int) =~= p@);
    while start > 0 && p.get_char(start - 1) != '/'
        invariant
            start <= len,
            len == p@.len(),
            name_start(p@) == name_start(p@.subrange(0, start as int)),
        decreases start,
    {
        proof {
            assert(p@.subrange(0, start as int).drop_last() =~= p@.subrange(0, start - 1));
        }
        start = start - 1;
    }
    proof {
        let q = p@.subrange(0, start as int);
        if start > 0 {
            assert(q.last() == p@[start - 1]);
        }
    }
    if start == len {
        None
    } else {
        Some(String::from_str(p.substring_char(start, len)))
    }
}

/// The last component of `p` without its extension.
pub fn file_stem(p: &str) -> (r: Option<String>)
    ensures
        match r {
            Some(s) => file_stem_of(p@) == Some(s@),
            None => file_stem_of(p@).is_none(),
        },
{
    match file_name(p) {
        None => None,
        Some(n) => {
            let len = n.as_str().unicode_len();
            let mut i = len;
            assert(n@.subrange(0, len as int) =~= n@);
            while i > 0 && n.as_str().get_char(i - 1) != '.'
                invariant
                    i <= len,
                    len == n@.len(),
                    last_dot(n@) == last_dot(n@.subrange(0, i as int)),
                decreases i,
            {
                proof {
                    assert(n@.subrange(0, i as int).drop_last() =~= n@.subrange(0, i - 1));
                }
                i = i - 1;
            }
            proof {
                let q = n@.subrange(0, i as int);
                if i > 0 {
                    assert(q.last() == n@[i - 1]);
                    assert(q.drop_last() =~= n@.subrange(0, i - 1));
                }
            }
            if i <= 1 {
                Some(n)
            } else {
                Some(String::from_str(n.as_str().substring_char(0, i - 1)))
            }
        },
    }
}

/// Places `name` in `dir`.
pub fn join(dir: &str, name: &str) -> (r: String)
    ensures
        r@ == join_path(dir@, name@),
{
    let len = dir.unicode_len();
    if len == 0 {
        String::from_str(name)
    } else if dir.get_char(len - 1) == '/' {
        String::from_str(dir).concat(name)
    } else {
        let r = String::from_str(dir).concat("/").concat(name);
        proof {
            reveal_strlit("/");
        }
        r
    }
}

/// Path of the stripped copy of the artifact at position `index`, in `dir`.
pub fn stripped_temp_path(dir: &str, stem: &str, index: usize) -> (r: String)
    ensures
        r@ == join_path(dir@, stripped_temp_name(stem@, index as nat)),
{
    let name = String::from_str(stem).concat(".tmp").concat(decimal(index).as_str()).concat(
        "-stripped",
    );
    proof {
        reveal_strlit(".tmp");
        reveal_strlit("-stripped");
        assert(name@ =~= stripped_temp_name(stem@, index as nat));
    }
    join(dir, name.as_str())
}

/// Install path of the detached debug file for the build identifier `id`.
pub fn debug_path_for_build_id(id: &[u8]) -> (r: String)
    requires
        id@.len() > 0,
    ensures
        r@ == build_id_debug_path(id@),
{
    let mut s = String::from_str("usr/lib/debug/.build-id/");
    push_hex_byte(&mut s, id[0]);
    s.append("/");
    let (_, rest) = id.split_at(1);
    assert(rest@ =~= id@.drop_first());
    s.append(hex_string(rest).as_str());
    s.append(".debug");
    proof {
        reveal_strlit("/");
    }
    s
}

/// Install path of the detached debug file when no build identifier is known.
pub fn fallback_debug_target_path(target: &str) -> (r: String)
    ensures
        r@ == fallback_debug_path(target@),
{
    let len = target.unicode_len();
    let rel = if len > 0 && target.get_char(0) == '/' {
        target.substring_char(1, len)
    } else {
        target
    };
    assert(len > 0 && target@[0] == '/' ==> rel@ =~= target@.drop_first());
    String::from_str("usr/lib/debug/").concat(rel).concat(".debug")
}

proof fn lemma_dec_len(n: nat)
    ensures
        dec(n).len() >= 1,
        n >= 10 ==> dec(n).len() >= 2,
    decreases n,
{
    if n >= 10 {
        lemma_dec_len(n / 10);
    }
}

proof fn lemma_dec_injective(n: nat, m: nat)
    requires
        dec(n) == dec(m),
    ensures
        n == m,
    decreases n,
{
    lemma_dec_len(n);
    lemma_dec_len(m);
    if n < 10 && m < 10 {
        assert(dec(n)[0] == digit_alphabet()[n as int]);
        assert(dec(m)[0] == digit_alphabet()[m as int]);
    } else if n >= 10 && m >= 10 {
        let a = dec(n);
        assert(a.drop_last() =~= dec(n / 10));
        assert(dec(m).drop_last() =~= dec(m / 10));
        lemma_dec_injective(n / 10, m / 10);
        assert(a.last() == digit_alphabet()[(n % 10) as int]);
        assert(dec(m).last() == digit_alphabet()[(m % 10) as int]);
    }
}

/// Stripped copies of artifacts with the same file stem but different positions
/// never share a path.
pub proof fn lemma_temp_paths_distinct(dir: Seq<char>, stem: Seq<char>, i: nat, j: nat)
    requires
        i != j,
    ensures
        join_path(dir, stripped_temp_name(stem, i)) != join_path(dir, stripped_temp_name(stem, j)),
{
    let a = stripped_temp_name(stem, i);
    let b = stripped_temp_name(stem, j);
    if join_path(dir, a) == join_path(dir, b) {
        let pre = if dir.len() == 0 {
            dir
        } else if dir.last() == '/' {
            dir
        } else {
            dir + seq!['/']
        };
        assert(join_path(dir, a) == pre + a);
        assert(join_path(dir, b) == pre + b);
        assert((pre + a).subrange(pre.len() as int, (pre + a).len() as int) =~= a);
        assert((pre + b).subrange(pre.len() as int, (pre + b).len() as int) =~= b);
        assert(a == b);
        let lo: int = stem.len() as int + 4;
        assert(a.subrange(lo, a.len() - 9) =~= dec(i));
        assert(b.subrange(lo, b.len() - 9) =~= dec(j));
        lemma_dec_injective(i, j);
    }
}

proof fn lemma_name_start_bound(p: Seq<char>)
    ensures
        0 <= name_start(p) <= p.len(),
    decreases p.len(),
{
    if p.len() > 0 && p.last() != '/' {
        lemma_name_start_bound(p.drop_last());
    }
}

/// A path that ends in `.debug` has a file name.
pub proof fn lemma_debug_suffix_has_file_name(prefix: Seq<char>)
    ensures
        file_name_of(prefix + ".debug"@) is Some,
{
    reveal_strlit(".debug");
    let p = prefix + ".debug"@;
    assert(p.last() == 'g');
    lemma_name_start_bound(p.drop_last());
}

} // verus!
