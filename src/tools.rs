use vstd::prelude::*;
use vstd::string::*;

verus! {

/// Whether an argument is a long flag (`--name`).
pub open spec fn is_long(a: Seq<char>) -> bool {
    a.len() >= 2 && a[0] == '-' && a[1] == '-'
}

/// Whether an argument is a group of short flags (`-abc`).
pub open spec fn is_short(a: Seq<char>) -> bool {
    !is_long(a) && a.len() > 1 && a[0] == '-'
}

/// The names of the known flags that argument `a` turns on.
pub open spec fn flags_of(a: Seq<char>, short_flags: Seq<char>, long_flags: Seq<Seq<char>>) -> Set<
    Seq<char>,
> {
    if is_long(a) {
        if long_flags.contains(a.subrange(2, a.len() as int)) {
            set![a.subrange(2, a.len() as int)]
        } else {
            Set::empty()
        }
    } else if is_short(a) {
        Set::new(
            |n: Seq<char>|
                exists|k: int|
                    1 <= k < a.len() && short_flags.contains(a[k]) && n == seq![a[k]],
        )
    } else {
        Set::empty()
    }
}

/// The names of the known flags that `args` turn on.
pub open spec fn detected_flags(
    args: Seq<Seq<char>>,
    short_flags: Seq<char>,
    long_flags: Seq<Seq<char>>,
) -> Set<Seq<char>>
    decreases args.len(),
{
    if args.len() == 0 {
        Set::empty()
    } else {
        detected_flags(args.drop_last(), short_flags, long_flags).union(
            flags_of(args.last(), short_flags, long_flags),
        )
    }
}

/// Whether `a` is one of the expected plain parameters.
pub open spec fn is_param(a: Seq<char>, params: Seq<Seq<char>>) -> bool {
    !is_long(a) && !is_short(a) && params.contains(a)
}

pub open spec fn strs_view(v: Seq<&str>) -> Seq<Seq<char>> {
    v.map_values(|s: &str| s@)
}

pub open spec fn strings_view(v: Seq<String>) -> Seq<Seq<char>> {
    v.map_values(|s: String| s@)
}

/// Whether `a` and `b` hold the same characters.
fn same_text(a: &str, b: &str) -> (r: bool)
    ensures
        r == (a@ == b@),
{
    let n = a.unicode_len();
    if n != b.unicode_len() {
        return false;
    }
    let mut i: usize = 0;
    while i < n
        invariant
            n == a@.len(),
            n == b@.len(),
            i <= n,
            forall|k: int| 0 <= k < i ==> a@[k] == b@[k],
        decreases n - i,
    {
        if a.get_char(i) != b.get_char(i) {
            return false;
        }
        i = i + 1;
    }
    assert(a@ =~= b@);
    true
}

/// Whether `list` holds `s`.
fn holds_text(list: &[&str], s: &str) -> (r: bool)
    ensures
        r == strs_view(list@).contains(s@),
{
    let mut i: usize = 0;
    while i < list.len()
        invariant
            i <= list@.len(),
            forall|k: int| 0 <= k < i ==> list@[k]@ != s@,
        decreases list@.len() - i,
    {
        if same_text(list[i], s) {
            assert(strs_view(list@)[i as int] == s@);
            return true;
        }
        i = i + 1;
    }
    assert forall|k: int| 0 <= k < strs_view(list@).len() implies strs_view(list@)[k] != s@ by {
        assert(list@[k]@ != s@);
    }
    false
}

/// Whether `list` holds `c`.
fn holds_char(list: &[char], c: char) -> (r: bool)
    ensures
        r == list@.contains(c),
{
    let mut i: usize = 0;
    while i < list.len()
        invariant
            i <= list@.len(),
            forall|k: int| 0 <= k < i ==> list@[k] != c,
        decreases list@.len() - i,
    {
        if list[i] == c {
            return true;
        }
        i = i + 1;
    }
    false
}

/// Add `name` to `flags` unless it is there already.
fn add_flag(flags: &mut Vec<String>, name: &str)
    requires
        strings_view(old(flags)@).no_duplicates(),
    ensures
        strings_view(final(flags)@).no_duplicates(),
        strings_view(final(flags)@).to_set() == strings_view(old(flags)@).to_set().insert(name@),
{
    let mut i: usize = 0;
    while i < flags.len()
        invariant
            flags@ == old(flags)@,
            strings_view(flags@).no_duplicates(),
            i <= flags@.len(),
            forall|k: int| 0 <= k < i ==> flags@[k]@ != name@,
        decreases flags@.len() - i,
    {
        if same_text(flags[i].as_str(), name) {
            proof {
                assert(strings_view(flags@)[i as int] == name@);
                assert(strings_view(flags@).to_set().insert(name@) =~= strings_view(flags@).to_set());
            }
            return;
        }
        i = i + 1;
    }
    let ghost before = strings_view(flags@);
    flags.push(String::from_str(name));
    proof {
        assert(strings_view(flags@) =~= before.push(name@));
        assert forall|k: int| 0 <= k < before.len() implies before[k] != name@ by {
            assert(flags@[k]@ != name@);
        }
        before.lemma_push_to_set_commute(name@);
        assert(before.push(name@).to_set() =~= before.to_set().insert(name@));
    }
}

/// Split command-line arguments into the known flags they turn on (`--name`
/// for a long flag, `-abc` for a group of short ones), each listed once, and the
/// arguments that are expected plain parameters, in order.
pub fn parse_args(
    arguments: Vec<String>,
    short_flags: &[char],
    long_flags: &[&str],
    params: &[&str],
) -> (r: (Vec<String>, Vec<String>))
    ensures
        strings_view(r.0@).no_duplicates(),
        strings_view(r.0@).to_set() == detected_flags(
            strings_view(arguments@),
            short_flags@,
            strs_view(long_flags@),
        ),
        strings_view(r.1@) == strings_view(arguments@).filter(
            |a: Seq<char>| is_param(a, strs_view(params@)),
        ),
{
    let ghost args = strings_view(arguments@);
    let ghost longs = strs_view(long_flags@);
    let ghost ps = strs_view(params@);
    let mut detected: Vec<String> = Vec::new();
    let mut found: Vec<String> = Vec::new();
    let mut i: usize = 0;
    while i < arguments.len()
        invariant
            args == strings_view(arguments@),
            longs == strs_view(long_flags@),
            ps == strs_view(params@),
            i <= arguments@.len(),
            strings_view(detected@).no_duplicates(),
            strings_view(detected@).to_set() == detected_flags(args.take(i as int), short_flags@, longs),
            strings_view(found@) == args.take(i as int).filter(|a: Seq<char>| is_param(a, ps)),
        decreases arguments@.len() - i,
    {
        let arg = arguments[i].as_str();
        let ghost a = arg@;
        assert(a == args[i as int]);
        assert(args.take(i + 1).drop_last() =~= args.take(i as int));
        let ghost prev = strings_view(detected@).to_set();
        let n = arg.unicode_len();
        let long = n >= 2 && arg.get_char(0) == '-' && arg.get_char(1) == '-';
        let short = !long && n > 1 && arg.get_char(0) == '-';
        if long {
            let name = arg.substring_char(2, n);
            if holds_text(long_flags, name) {
                add_flag(&mut detected, name);
                assert(strings_view(detected@).to_set() =~= prev.union(flags_of(a, short_flags@, longs)));
            } else {
                assert(strings_view(detected@).to_set() =~= prev.union(flags_of(a, short_flags@, longs)));
            }
        } else if short {
            let mut k: usize = 1;
            while k < n
                invariant
                    n == a.len(),
                    is_short(a),
                    1 <= k <= n,
                    a == arg@,
                    strings_view(detected@).no_duplicates(),
                    strings_view(detected@).to_set() == prev.union(
                        Set::new(
                            |m: Seq<char>|
                                exists|j: int|
                                    1 <= j < k && short_flags@.contains(a[j]) && m == seq![a[j]],
                        ),
                    ),
                decreases n - k,
            {
                let c = arg.get_char(k);
                let ghost before = strings_view(detected@).to_set();
                if holds_char(short_flags, c) {
                    let one = arg.substring_char(k, k + 1);
                    assert(one@ =~= seq![c]);
                    add_flag(&mut detected, one);
                }
                k = k + 1;
                assert(strings_view(detected@).to_set() =~= prev.union(
                    Set::new(
                        |m: Seq<char>|
                            exists|j: int|
                                1 <= j < k && short_flags@.contains(a[j]) && m == seq![a[j]],
                    ),
                )) by {
                    assert forall|m: Seq<char>| #[trigger] strings_view(detected@).to_set().contains(m) implies
                        prev.contains(m) || exists|j: int| 1 <= j < k && short_flags@.contains(a[j]) && m == seq![a[j]]
                    by {
                        if !before.contains(m) {
                            assert(m == seq![c] && short_flags@.contains(a[k - 1]));
                        }
                    }
                }
            }
            assert(strings_view(detected@).to_set() =~= prev.union(flags_of(a, short_flags@, longs)));
        } else {
            assert(strings_view(detected@).to_set() =~= prev.union(flags_of(a, short_flags@, longs)));
        }
        let ghost before_found = strings_view(found@);
        if !long && !short && holds_text(params, arg) {
            found.push(String::from_str(arg));
            assert(strings_view(found@) =~= before_found.push(a));
        }
        proof {
            assert(is_long(a) == long);
            assert(is_short(a) == short);
            reveal(Seq::filter);
            assert(args.take(i + 1).last() == a);
        }
        i = i + 1;
    }
    assert(args.take(i as int) =~= args);
    (detected, found)
}


#[verifier::external_type_specification]
#[verifier::external_body]
pub struct ExRegex(regex::Regex);

/// Whether `regex::Regex::new` accepts `pattern`.
pub uninterp spec fn regex_compiles(pattern: Seq<char>) -> bool;

/// Whether the regex of `pattern` matches somewhere in `text`.
pub uninterp spec fn regex_is_match(pattern: Seq<char>, text: Seq<char>) -> bool;

/// A compiled pattern together with its source text.
pub struct Pattern {
    source: String,
    re: regex::Regex,
}

impl Pattern {
    pub closed spec fn source_spec(&self) -> Seq<char> {
        self.source@
    }
}

/// Relies on regex::Regex::new: it compiles `pattern`, or fails on an invalid
/// or oversized pattern; which of the two depends on the pattern alone.
#[verifier::external_body]
fn compile(pattern: &str) -> (r: Option<Pattern>)
    ensures
        r is Some == regex_compiles(pattern@),
        r matches Some(p) ==> p.source_spec() == pattern@,
{
    match regex::Regex::new(pattern) {
        Ok(re) => Some(Pattern { source: pattern.to_string(), re }),
        Err(_) => None,
    }
}

/// Relies on regex::Regex::is_match: whether the regex matches anywhere in
/// `text`.
#[verifier::external_body]
fn is_match(p: &Pattern, text: &str) -> (r: bool)
    ensures
        r == regex_is_match(p.source_spec(), text@),
{
    p.re.is_match(text)
}

/// Whether one of the patterns that compile matches `a`.
pub open spec fn any_match(patterns: Seq<Seq<char>>, a: Seq<char>) -> bool {
    exists|k: int|
        0 <= k < patterns.len() && regex_compiles(patterns[k]) && regex_is_match(patterns[k], a)
}

/// The arguments that one of `patterns` matches, in order; patterns that do
/// not compile are left out.
pub fn filter_params_regex(arguments: Vec<String>, patterns: &[&str]) -> (r: Vec<String>)
    ensures
        strings_view(r@) == strings_view(arguments@).filter(
            |a: Seq<char>| any_match(strs_view(patterns@), a),
        ),
{
    let ghost ps = strs_view(patterns@);
    let mut compiled: Vec<Option<Pattern>> = Vec::new();
    let mut i: usize = 0;
    while i < patterns.len()
        invariant
            ps == strs_view(patterns@),
            i <= patterns@.len(),
            compiled@.len() == i,
            forall|k: int| 0 <= k < i ==> (#[trigger] compiled@[k] is Some) == regex_compiles(ps[k]),
            forall|k: int| 0 <= k < i ==> (#[trigger] compiled@[k] matches Some(p) ==> p.source_spec() == ps[k]),
        decreases patterns@.len() - i,
    {
        compiled.push(compile(patterns[i]));
        i = i + 1;
    }
    let ghost args = strings_view(arguments@);
    let ghost pred = |a: Seq<char>| any_match(ps, a);
    let mut out: Vec<String> = Vec::new();
    let mut n: usize = 0;
    while n < arguments.len()
        invariant
            ps == strs_view(patterns@),
            args == strings_view(arguments@),
            pred == (|a: Seq<char>| any_match(ps, a)),
            n <= arguments@.len(),
            compiled@.len() == ps.len(),
            forall|k: int| 0 <= k < ps.len() ==> (#[trigger] compiled@[k] is Some) == regex_compiles(ps[k]),
            forall|k: int| 0 <= k < ps.len() ==> (#[trigger] compiled@[k] matches Some(p) ==> p.source_spec() == ps[k]),
            strings_view(out@) == args.take(n as int).filter(pred),
        decreases arguments@.len() - n,
    {
        let arg = arguments[n].as_str();
        let mut hit = false;
        let mut j: usize = 0;
        while j < compiled.len()
            invariant
                j <= compiled@.len(),
                compiled@.len() == ps.len(),
                forall|k: int| 0 <= k < ps.len() ==> (#[trigger] compiled@[k] is Some) == regex_compiles(ps[k]),
                forall|k: int| 0 <= k < ps.len() ==> (#[trigger] compiled@[k] matches Some(p) ==> p.source_spec() == ps[k]),
                hit == exists|q: int| 0 <= q < j && regex_compiles(ps[q]) && regex_is_match(ps[q], arg@),
            decreases compiled@.len() - j,
        {
            match &compiled[j] {
                Some(p) => {
                    if is_match(p, arg) {
                        hit = true;
                    }
                },
                None => {},
            }
            j = j + 1;
        }
        proof {
            assert(arg@ == args[n as int]);
            assert(hit == any_match(ps, arg@));
            reveal(Seq::filter);
            assert(args.take(n + 1).drop_last() =~= args.take(n as int));
            assert(args.take(n + 1).last() == arg@);
        }
        let ghost before = strings_view(out@);
        if hit {
            out.push(String::from_str(arg));
            assert(strings_view(out@) =~= before.push(arg@));
        }
        n = n + 1;
    }
    assert(args.take(n as int) =~= args);
    out
}

} // verus!
