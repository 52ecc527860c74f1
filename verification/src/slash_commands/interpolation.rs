//! Filling a template in: `$ARGUMENTS` stands for all arguments, `$1`,
//! `$2`, ... for single ones, and every other text for itself.

use crate::numfmt::{all_digits, digits_value, parse_usize};
use crate::search::{matches_at, starts_with};
use crate::slash_commands::context::{all_on_one_line, argument_at, InterpolationContext};
use crate::slash_commands::errors::SlashCommandError;
use crate::text::{char_is_digit, chars_of, is_digit, push_all, push_str, string_of, sub_vec};
use vstd::prelude::*;

verus! {

pub open spec fn arguments_key() -> Seq<char> {
    "ARGUMENTS"@
}

/// The number of digits that `s` begins with.
pub open spec fn digit_run(s: Seq<char>) -> nat
    decreases s.len(),
{
    if s.len() > 0 && is_digit(s[0]) {
        1 + digit_run(s.drop_first())
    } else {
        0
    }
}

pub proof fn lemma_digit_run(s: Seq<char>)
    ensures
        digit_run(s) <= s.len(),
        all_digits(s.take(digit_run(s) as int)),
        digit_run(s) < s.len() ==> !is_digit(s[digit_run(s) as int]),
    decreases s.len(),
{
    if s.len() > 0 && is_digit(s[0]) {
        let t = s.drop_first();
        lemma_digit_run(t);
        let k = digit_run(s) as int;
        assert forall|i: int| 0 <= i < s.take(k).len() implies is_digit(#[trigger] s.take(k)[i]) by {
            if i > 0 {
                assert(s.take(k)[i] == t.take(k - 1)[i - 1]);
            }
        }
        if k < s.len() {
            assert(s[k] == t[k - 1]);
        }
    } else {
        assert(s.take(0).len() == 0);
    }
}

/// The message for a positional index that is too large to count with.
pub open spec fn index_error(digits: Seq<char>) -> Seq<char> {
    "invalid positional index '"@ + digits + "': number too large to fit in target type"@
}

/// `head` in front of what `rest` came to.
pub open spec fn after(head: Seq<char>, rest: Result<Seq<char>, Seq<char>>) -> Result<
    Seq<char>,
    Seq<char>,
> {
    match rest {
        Ok(x) => Ok(head + x),
        Err(e) => Err(e),
    }
}

/// The template with its placeholders filled in. A dollar sign that
/// begins no placeholder stands for itself; an argument that was not
/// given stands for nothing. The first positional index that is too
/// large to count with ends the filling in with an error.
pub open spec fn interpolated(template: Seq<char>, arguments: Seq<Seq<char>>) -> Result<
    Seq<char>,
    Seq<char>,
>
    decreases template.len(),
{
    if template.len() == 0 {
        Ok(Seq::empty())
    } else if template[0] != '$' {
        after(seq![template[0]], interpolated(template.drop_first(), arguments))
    } else {
        let rest = template.drop_first();
        if starts_with(rest, arguments_key()) {
            after(
                all_on_one_line(arguments),
                interpolated(rest.skip(arguments_key().len() as int), arguments),
            )
        } else {
            let k = digit_run(rest) as int;
            proof {
                lemma_digit_run(rest);
            }
            if k == 0 {
                after(seq!['$'], interpolated(rest, arguments))
            } else if digits_value(rest.take(k)) > usize::MAX {
                Err(index_error(rest.take(k)))
            } else {
                after(
                    match argument_at(arguments, digits_value(rest.take(k))) {
                        Some(a) => a,
                        None => Seq::empty(),
                    },
                    interpolated(rest.skip(k), arguments),
                )
            }
        }
    }
}

pub proof fn lemma_after_after(a: Seq<char>, b: Seq<char>, r: Result<Seq<char>, Seq<char>>)
    ensures
        after(a, after(b, r)) == after(a + b, r),
{
    match r {
        Ok(x) => {
            assert(a + (b + x) =~= (a + b) + x);
        },
        Err(_) => {},
    }
}

pub open spec fn rendered(r: Result<String, SlashCommandError>) -> Result<Seq<char>, Seq<char>> {
    match r {
        Ok(s) => Ok(s@),
        Err(SlashCommandError::Interpolation(m)) => Err(m@),
        Err(_) => Err(Seq::empty()),
    }
}

fn count_digits(v: &Vec<char>, from: usize) -> (k: usize)
    requires
        from <= v.len(),
    ensures
        k == digit_run(v@.skip(from as int)),
        from + k <= v.len(),
{
    let mut k: usize = 0;
    proof {
        assert(v@.skip(from as int).skip(0) =~= v@.skip(from as int));
    }
    while from + k < v.len() && char_is_digit(v[from + k])
        invariant
            from + k <= v.len(),
            digit_run(v@.skip(from as int)) == k + digit_run(v@.skip(from + k)),
        decreases v.len() - from - k,
    {
        proof {
            assert(v@.skip(from + k).drop_first() =~= v@.skip(from + k + 1));
        }
        k += 1;
    }
    proof {
        let s = v@.skip(from + k);
        if s.len() > 0 {
            assert(s[0] == v@[from + k]);
        }
    }
    k
}

/// Fills the template in with the arguments of `ctx`.
pub fn interpolate_template(template: &str, ctx: &InterpolationContext) -> (r: Result<
    String,
    SlashCommandError,
>)
    ensures
        rendered(r) == interpolated(template@, ctx.deep_view()),
        r is Err ==> r->Err_0 is Interpolation,
{
    let v = chars_of(template);
    let key = chars_of("ARGUMENTS");
    let n = v.len();
    let mut out: Vec<char> = Vec::new();
    let mut i: usize = 0;
    let ghost args = ctx.deep_view();
    proof {
        assert(v@.skip(0) =~= v@);
        assert(Seq::<char>::empty() + Seq::<char>::empty() =~= Seq::<char>::empty());
        match interpolated(v@, args) {
            Ok(x) => {
                assert(Seq::<char>::empty() + x =~= x);
            },
            Err(_) => {},
        }
    }
    while i < n
        invariant
            i <= n,
            n == v.len(),
            v@ == template@,
            key@ == arguments_key(),
            args == ctx.deep_view(),
            interpolated(v@, args) == after(out@, interpolated(v@.skip(i as int), args)),
        decreases n - i,
    {
        let ghost cur = v@.skip(i as int);
        let ghost out0 = out@;
        proof {
            assert(cur.len() == n - i);
            assert(cur[0] == v@[i as int]);
            assert(cur.drop_first() =~= v@.skip(i + 1));
        }
        let ch = v[i];
        if ch != '$' {
            out.push(ch);
            proof {
                lemma_after_after(out0, seq![ch], interpolated(v@.skip(i + 1), args));
                assert(out@ =~= out0 + seq![ch]);
            }
            i += 1;
            continue ;
        }
        let ghost rest = v@.skip(i + 1);
        if matches_at(&v, &key, i + 1) {
            proof {
                assert(rest.subrange(0, key@.len() as int) =~= v@.subrange(
                    i + 1,
                    i + 1 + key@.len(),
                ));
                assert(starts_with(rest, arguments_key()));
                assert(rest.skip(key@.len() as int) =~= v@.skip(i + 1 + key@.len()));
            }
            let all = chars_of(ctx.all_arguments().as_str());
            push_all(&mut out, &all);
            proof {
                lemma_after_after(
                    out0,
                    all_on_one_line(args),
                    interpolated(v@.skip(i + 1 + key@.len()), args),
                );
            }
            i = i + 1 + key.len();
            continue ;
        }
        proof {
            if starts_with(rest, arguments_key()) {
                assert(rest.subrange(0, key@.len() as int) =~= v@.subrange(
                    i + 1,
                    i + 1 + key@.len(),
                ));
            }
        }
        let k = count_digits(&v, i + 1);
        if k == 0 {
            out.push('$');
            proof {
                lemma_after_after(out0, seq!['$'], interpolated(rest, args));
                assert(out@ =~= out0 + seq!['$']);
            }
            i += 1;
            continue ;
        }
        let digits = sub_vec(&v, i + 1, i + 1 + k);
        proof {
            lemma_digit_run(rest);
            assert(digits@ =~= rest.take(k as int));
            assert(rest.skip(k as int) =~= v@.skip(i + 1 + k));
        }
        let index = match parse_usize(&digits) {
            Some(x) => x,
            None => {
                let mut message: Vec<char> = Vec::new();
                push_str(&mut message, "invalid positional index '");
                push_all(&mut message, &digits);
                push_str(&mut message, "': number too large to fit in target type");
                proof {
                    assert(message@ =~= index_error(digits@));
                }
                return Err(SlashCommandError::Interpolation(string_of(&message)));
            },
        };
        match ctx.positional(index) {
            Some(a) => {
                let piece = chars_of(a.as_str());
                push_all(&mut out, &piece);
                proof {
                    lemma_after_after(out0, a@, interpolated(v@.skip(i + 1 + k), args));
                }
            },
            None => {
                proof {
                    lemma_after_after(
                        out0,
                        Seq::<char>::empty(),
                        interpolated(v@.skip(i + 1 + k), args),
                    );
                    assert(out0 + Seq::<char>::empty() =~= out0);
                }
            },
        }
        i = i + 1 + k;
    }
    proof {
        assert(v@.skip(n as int).len() == 0);
        assert(out@ + Seq::<char>::empty() =~= out@);
    }
    Ok(string_of(&out))
}

} // verus!
