//! Debian names for Rust target triples: the multiarch tuple and the
//! architecture.
use vstd::prelude::*;

verus! {

/// Index of the first `c` in `s`, or -1.
pub open spec fn first_pos(s: Seq<char>, c: char) -> int
    decreases s.len(),
{
    if s.len() == 0 {
        -1
    } else if s[0] == c {
        0
    } else if first_pos(s.drop_first(), c) < 0 {
        -1
    } else {
        first_pos(s.drop_first(), c) + 1
    }
}

/// Index of the last `c` in `s`, or -1.
pub open spec fn last_pos(s: Seq<char>, c: char) -> int
    decreases s.len(),
{
    if s.len() == 0 {
        -1
    } else if s.last() == c {
        s.len() - 1
    } else {
        last_pos(s.drop_last(), c)
    }
}

/// The architecture part of a triple: all before the first `-`.
pub open spec fn arch_part(t: Seq<char>) -> Seq<char> {
    if first_pos(t, '-') < 0 {
        t
    } else {
        t.subrange(0, first_pos(t, '-'))
    }
}

/// The ABI part of a triple: all after the last `-`, where there is a `-`.
pub open spec fn abi_part(t: Seq<char>) -> Option<Seq<char>> {
    if last_pos(t, '-') < 0 {
        None
    } else {
        Some(t.subrange(last_pos(t, '-') + 1, t.len() as int))
    }
}

pub open spec fn has_prefix(s: Seq<char>, p: Seq<char>) -> bool {
    p.len() <= s.len() && s.subrange(0, p.len() as int) == p
}

pub open spec fn has_suffix(s: Seq<char>, p: Seq<char>) -> bool {
    p.len() <= s.len() && s.subrange(s.len() - p.len(), s.len() as int) == p
}

/// Debian's multiarch `(arch, abi)` for a Rust architecture and ABI.
pub open spec fn multiarch_parts(arch: Seq<char>, abi: Seq<char>) -> (Seq<char>, Seq<char>) {
    if arch == "i586"@ || arch == "i686"@ {
        ("i386"@, "gnu"@)
    } else if arch == "x86_64"@ {
        ("x86_64"@, "gnu"@)
    } else if arch == "aarch64"@ {
        ("aarch64"@, "gnu"@)
    } else if has_prefix(arch, "arm"@) || has_prefix(arch, "thumb"@) {
        (
            "arm"@,
            if has_suffix(abi, "hf"@) {
                "gnueabihf"@
            } else {
                "gnueabi"@
            },
        )
    } else if arch == "mipsel"@ {
        ("mipsel"@, "gnu"@)
    } else if arch == "loongarch64"@ {
        ("loong64"@, "gnu"@)
    } else if has_prefix(arch, "riscv64"@) {
        ("riscv64"@, "gnu"@)
    } else {
        (arch, abi)
    }
}

/// Debian's multiarch tuple `<arch>-linux-<abi>` for a Rust target triple; a
/// triple without `-` has the ABI `gnu`.
pub open spec fn debian_triple(t: Seq<char>) -> Seq<char> {
    let abi = match abi_part(t) {
        Some(a) => a,
        None => "gnu"@,
    };
    let (a, b) = multiarch_parts(arch_part(t), abi);
    a + "-linux-"@ + b
}

/// Debian's architecture name for a Rust architecture and ABI.
pub open spec fn debian_arch(arch: Seq<char>, abi: Seq<char>) -> Seq<char> {
    if arch == "aarch64"@ {
        "arm64"@
    } else if arch == "mips64"@ && abi == "gnuabin32"@ {
        "mipsn32"@
    } else if arch == "mips64el"@ && abi == "gnuabin32"@ {
        "mipsn32el"@
    } else if arch == "mipsisa32r6"@ {
        "mipsr6"@
    } else if arch == "mipsisa32r6el"@ {
        "mipsr6el"@
    } else if arch == "mipsisa64r6"@ && abi == "gnuabi64"@ {
        "mips64r6"@
    } else if arch == "mipsisa64r6"@ && abi == "gnuabin32"@ {
        "mipsn32r6"@
    } else if arch == "mipsisa64r6el"@ && abi == "gnuabi64"@ {
        "mips64r6el"@
    } else if arch == "mipsisa64r6el"@ && abi == "gnuabin32"@ {
        "mipsn32r6el"@
    } else if arch == "powerpc"@ && abi == "gnuspe"@ {
        "powerpcspe"@
    } else if arch == "powerpc64"@ {
        "ppc64"@
    } else if arch == "powerpc64le"@ {
        "ppc64el"@
    } else if arch == "riscv64gc"@ {
        "riscv64"@
    } else if arch == "i586"@ || arch == "i686"@ || arch == "x86"@ {
        "i386"@
    } else if arch == "x86_64"@ && abi == "gnux32"@ {
        "x32"@
    } else if arch == "x86_64"@ {
        "amd64"@
    } else if arch == "loongarch64"@ {
        "loong64"@
    } else if has_prefix(arch, "arm"@) && has_suffix(abi, "hf"@) {
        "armhf"@
    } else if has_prefix(arch, "arm"@) {
        "armel"@
    } else {
        arch
    }
}

/// Debian's architecture name for a Rust target triple; a triple without `-` has
/// an empty ABI.
pub open spec fn debian_architecture(t: Seq<char>) -> Seq<char> {
    debian_arch(
        arch_part(t),
        match abi_part(t) {
            Some(a) => a,
            None => Seq::empty(),
        },
    )
}

/// Whether `a` and `b` hold the same characters.
pub fn same_text(a: &str, b: &str) -> (r: bool)
    ensures
        r == (a@ == b@),
{
    let n = a.unicode_len();
    if n != b.unicode_len() {
        return false;
    }
    let mut i: usize = 0;
    while i < n
        invariant
            i <= n,
            n == a@.len(),
            n == b@.len(),
            a@.subrange(0, i as int) == b@.subrange(0, i as int),
        decreases n - i,
    {
        if a.get_char(i) != b.get_char(i) {
            return false;
        }
        assert(a@.subrange(0, i + 1) =~= a@.subrange(0, i as int).push(a@[i as int]));
        assert(b@.subrange(0, i + 1) =~= b@.subrange(0, i as int).push(b@[i as int]));
        i = i + 1;
    }
    assert(a@ =~= a@.subrange(0, n as int));
    assert(b@ =~= b@.subrange(0, n as int));
    true
}

/// Whether `s` starts with `p`.
pub fn starts_with(s: &str, p: &str) -> (r: bool)
    ensures
        r == has_prefix(s@, p@),
{
    let n = s.unicode_len();
    let m = p.unicode_len();
    if m > n {
        return false;
    }
    same_text(s.substring_char(0, m), p)
}

/// Whether `s` ends with `p`.
pub fn ends_with(s: &str, p: &str) -> (r: bool)
    ensures
        r == has_suffix(s@, p@),
{
    let n = s.unicode_len();
    let m = p.unicode_len();
    if m > n {
        return false;
    }
    same_text(s.substring_char(n - m, n), p)
}

/// The architecture part of a triple.
pub fn triple_arch(t: &str) -> (r: &str)
    ensures
        r@ == arch_part(t@),
{
    let n = t.unicode_len();
    let mut i: usize = 0;
    while i < n && t.get_char(i) != '-'
        invariant
            i <= n,
            n == t@.len(),
            forall|k: int| 0 <= k < i ==> t@[k] != '-',
        decreases n - i,
    {
        i = i + 1;
    }
    proof {
        lemma_first_pos(t@, '-', i as int);
    }
    t.substring_char(0, i)
}

proof fn lemma_first_pos(s: Seq<char>, c: char, i: int)
    requires
        0 <= i <= s.len(),
        forall|k: int| 0 <= k < i ==> s[k] != c,
        i < s.len() ==> s[i] == c,
    ensures
        i < s.len() ==> first_pos(s, c) == i,
        i == s.len() ==> first_pos(s, c) == -1,
        i == s.len() ==> s.subrange(0, i) == s,
    decreases s.len(),
{
    assert(s.subrange(0, s.len() as int) =~= s);
    if s.len() > 0 && i > 0 {
        let t = s.drop_first();
        assert forall|k: int| 0 <= k < i - 1 implies t[k] != c by {
            assert(t[k] == s[k + 1]);
        }
        lemma_first_pos(t, c, i - 1);
    }
}

/// The ABI part of a triple, where it has a `-`.
pub fn triple_abi(t: &str) -> (r: Option<&str>)
    ensures
        match r {
            Some(a) => abi_part(t@) == Some(a@),
            None => abi_part(t@).is_none(),
        },
{
    let n = t.unicode_len();
    let mut i: usize = n;
    assert(t@.subrange(0, n as int) =~= t@);
    while i > 0 && t.get_char(i - 1) != '-'
        invariant
            i <= n,
            n == t@.len(),
            last_pos(t@, '-') == last_pos(t@.subrange(0, i as int), '-'),
        decreases i,
    {
        assert(t@.subrange(0, i as int).drop_last() =~= t@.subrange(0, i - 1));
        i = i - 1;
    }
    if i == 0 {
        None
    } else {
        assert(t@.subrange(0, i as int).last() == t@[i - 1]);
        Some(t.substring_char(i, n))
    }
}

/// Debian's multiarch tuple for a Rust target triple.
pub fn debian_triple_from_rust_triple(rust_target_triple: &str) -> (r: String)
    ensures
        r@ == debian_triple(rust_target_triple@),
{
    let arch = triple_arch(rust_target_triple);
    let abi = match triple_abi(rust_target_triple) {
        Some(a) => a,
        None => "gnu",
    };
    let (darch, dabi): (&str, &str) = if same_text(arch, "i586") || same_text(arch, "i686") {
        ("i386", "gnu")
    } else if same_text(arch, "x86_64") {
        ("x86_64", "gnu")
    } else if same_text(arch, "aarch64") {
        ("aarch64", "gnu")
    } else if starts_with(arch, "arm") || starts_with(arch, "thumb") {
        (
            "arm",
            if ends_with(abi, "hf") {
                "gnueabihf"
            } else {
                "gnueabi"
            },
        )
    } else if same_text(arch, "mipsel") {
        ("mipsel", "gnu")
    } else if same_text(arch, "loongarch64") {
        ("loong64", "gnu")
    } else if starts_with(arch, "riscv64") {
        ("riscv64", "gnu")
    } else {
        (arch, abi)
    };
    String::from_str(darch).concat("-linux-").concat(dabi)
}

/// Debian's architecture name for a Rust target triple.
pub fn debian_architecture_from_rust_triple(target: &str) -> (r: String)
    ensures
        r@ == debian_architecture(target@),
{
    let arch = triple_arch(target);
    let abi = match triple_abi(target) {
        Some(a) => a,
        None => "",
    };
    proof {
        reveal_strlit("");
    }
    assert(abi@ =~= match abi_part(target@) {
        Some(a) => a,
        None => Seq::empty(),
    });
    let r: &str = if same_text(arch, "aarch64") {
        "arm64"
    } else if same_text(arch, "mips64") && same_text(abi, "gnuabin32") {
        "mipsn32"
    } else if same_text(arch, "mips64el") && same_text(abi, "gnuabin32") {
        "mipsn32el"
    } else if same_text(arch, "mipsisa32r6") {
        "mipsr6"
    } else if same_text(arch, "mipsisa32r6el") {
        "mipsr6el"
    } else if same_text(arch, "mipsisa64r6") && same_text(abi, "gnuabi64") {
        "mips64r6"
    } else if same_text(arch, "mipsisa64r6") && same_text(abi, "gnuabin32") {
        "mipsn32r6"
    } else if same_text(arch, "mipsisa64r6el") && same_text(abi, "gnuabi64") {
        "mips64r6el"
    } else if same_text(arch, "mipsisa64r6el") && same_text(abi, "gnuabin32") {
        "mipsn32r6el"
    } else if same_text(arch, "powerpc") && same_text(abi, "gnuspe") {
        "powerpcspe"
    } else if same_text(arch, "powerpc64") {
        "ppc64"
    } else if same_text(arch, "powerpc64le") {
        "ppc64el"
    } else if same_text(arch, "riscv64gc") {
        "riscv64"
    } else if same_text(arch, "i586") || same_text(arch, "i686") || same_text(arch, "x86") {
        "i386"
    } else if same_text(arch, "x86_64") && same_text(abi, "gnux32") {
        "x32"
    } else if same_text(arch, "x86_64") {
        "amd64"
    } else if same_text(arch, "loongarch64") {
        "loong64"
    } else if starts_with(arch, "arm") && ends_with(abi, "hf") {
        "armhf"
    } else if starts_with(arch, "arm") {
        "armel"
    } else {
        arch
    };
    String::from_str(r)
}

} // verus!
