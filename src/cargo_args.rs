//! The arguments of the `cargo` invocation that builds the binaries.
use vstd::prelude::*;
use crate::strip::strings_view;
use crate::triple::{debian_triple, debian_triple_from_rust_triple};

verus! {

/// The items of `s` separated by commas.
pub open spec fn comma_joined(s: Seq<Seq<char>>) -> Seq<char>
    decreases s.len(),
{
    if s.len() == 0 {
        Seq::empty()
    } else if s.len() == 1 {
        s[0]
    } else {
        comma_joined(s.drop_last()) + ","@ + s.last()
    }
}

/// The arguments given to `cargo`: the build command, the caller's flags, then
/// `--verbose`, `--target <t>`, `--no-default-features` and `--features <list>`
/// where they apply.
pub open spec fn cargo_args(
    build_command: Seq<char>,
    flags: Seq<Seq<char>>,
    verbose: bool,
    target: Option<Seq<char>>,
    default_features: bool,
    features: Seq<Seq<char>>,
) -> Seq<Seq<char>> {
    seq![build_command] + flags + (if verbose {
        seq!["--verbose"@]
    } else {
        Seq::empty()
    }) + (match target {
        Some(t) => seq!["--target"@, t],
        None => Seq::empty(),
    }) + (if default_features {
        Seq::empty()
    } else {
        seq!["--no-default-features"@]
    }) + (if features.len() == 0 {
        Seq::empty()
    } else {
        seq!["--features"@, comma_joined(features)]
    })
}

/// The items of `items` separated by commas.
pub fn join_commas(items: &Vec<String>) -> (r: String)
    ensures
        r@ == comma_joined(strings_view(items@)),
{
    let mut out = String::new();
    let mut i: usize = 0;
    while i < items.len()
        invariant
            i <= items@.len(),
            out@ == comma_joined(strings_view(items@.subrange(0, i as int))),
        decreases items@.len() - i,
    {
        proof {
            assert(strings_view(items@.subrange(0, i + 1)).drop_last() =~= strings_view(
                items@.subrange(0, i as int),
            ));
        }
        if i > 0 {
            out.append(",");
        } else {
            assert(strings_view(items@.subrange(0, 1)) =~= seq![items@[0]@]);
        }
        out.append(items[i].as_str());
        i = i + 1;
    }
    assert(items@.subrange(0, i as int) =~= items@);
    out
}

/// The arguments of the `cargo` invocation that builds the package.
pub fn cargo_build_args(
    build_command: &str,
    build_flags: &Vec<String>,
    verbose: bool,
    target: Option<&str>,
    default_features: bool,
    features: &Vec<String>,
) -> (r: Vec<String>)
    ensures
        strings_view(r@) == cargo_args(
            build_command@,
            strings_view(build_flags@),
            verbose,
            match target {
                Some(t) => Some(t@),
                None => None,
            },
            default_features,
            strings_view(features@),
        ),
{
    let mut args: Vec<String> = vec![String::from_str(build_command)];
    let mut i: usize = 0;
    while i < build_flags.len()
        invariant
            i <= build_flags@.len(),
            args@.len() == i + 1,
            args@[0]@ == build_command@,
            forall|k: int| 0 <= k < i ==> #[trigger] args@[k + 1] == build_flags@[k],
        decreases build_flags@.len() - i,
    {
        args.push(build_flags[i].clone());
        i = i + 1;
    }
    assert(strings_view(args@) =~= seq![build_command@] + strings_view(build_flags@)) by {
        assert forall|k: int| 0 <= k < build_flags@.len() implies strings_view(args@)[k + 1]
            == strings_view(build_flags@)[k] by {
            assert(args@[k + 1] == build_flags@[k]);
        }
    }
    let ghost a0 = strings_view(args@);
    if verbose {
        args.push(String::from_str("--verbose"));
    }
    let ghost a1 = strings_view(args@);
    assert(a1 =~= a0 + (if verbose { seq!["--verbose"@] } else { Seq::empty() }));
    match target {
        Some(t) => {
            args.push(String::from_str("--target"));
            args.push(String::from_str(t));
        },
        None => {},
    }
    let ghost a2 = strings_view(args@);
    assert(a2 =~= a1 + (match target {
        Some(t) => seq!["--target"@, t@],
        None => Seq::empty(),
    }));
    if !default_features {
        args.push(String::from_str("--no-default-features"));
    }
    let ghost a3 = strings_view(args@);
    assert(a3 =~= a2 + (if default_features { Seq::empty() } else { seq!["--no-default-features"@] }));
    if features.len() > 0 {
        args.push(String::from_str("--features"));
        args.push(join_commas(features));
    }
    assert(strings_view(args@) =~= a3 + (if features@.len() == 0 {
        Seq::empty()
    } else {
        seq!["--features"@, comma_joined(strings_view(features@))]
    }));
    args
}

/// Where the cross-compiled `pkg-config` files of a target live:
/// `/usr/lib/<multiarch tuple>/pkgconfig`.
pub fn pkg_config_path(target: &str) -> (r: String)
    ensures
        r@ == "/usr/lib/"@ + debian_triple(target@) + "/pkgconfig"@,
{
    String::from_str("/usr/lib/").concat(debian_triple_from_rust_triple(target).as_str()).concat(
        "/pkgconfig",
    )
}

} // verus!
