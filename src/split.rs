//! Splitting text at a delimiter character.

use vstd::prelude::*;

verus! {

/// The text before the first `d` in `s`, and the text after it if `d` occurs.
pub open spec fn split_once_spec(s: Seq<char>, d: char) -> (Seq<char>, Option<Seq<char>>) {
    match s.index_of_first(d) {
        Some(k) => (s.subrange(0, k), Some(s.subrange(k + 1, s.len() as int))),
        None => (s, None),
    }
}

/// All fields of `s` separated by `d`, in order (always at least one).
pub open spec fn fields(s: Seq<char>, d: char) -> Seq<Seq<char>>
    decreases s.len(),
{
    match s.index_of_first(d) {
        Some(k) => if 0 <= k < s.len() {
            seq![s.subrange(0, k)] + fields(s.subrange(k + 1, s.len() as int), d)
        } else {
            seq![s]
        },
        None => seq![s],
    }
}

/// The view of an optional string slice.
pub open spec fn opt_view(o: Option<&str>) -> Option<Seq<char>> {
    match o {
        Some(s) => Some(s@),
        None => None,
    }
}

/// Splits `input` once at the first `delimiter`: the text before it, and the
/// text after it when the delimiter occurs.
pub fn split_once_optional<'a>(input: &'a str, delimiter: char) -> (r: (&'a str, Option<&'a str>))
    ensures
        (r.0@, opt_view(r.1)) == split_once_spec(input@, delimiter),
{
    let n = input.unicode_len();
    let mut i: usize = 0;
    while i < n
        invariant
            n == input@.len(),
            i <= n,
            forall|j: int| 0 <= j < i ==> input@[j] != delimiter,
        decreases n - i,
    {
        if input.get_char(i) == delimiter {
            proof {
                input@.index_of_first_ensures(delimiter);
            }
            let left = input.substring_char(0, i);
            let right = input.substring_char(i + 1, n);
            return (left, Some(right));
        }
        i = i + 1;
    }
    proof {
        input@.index_of_first_ensures(delimiter);
    }
    (input, None)
}

/// Splits `input` at every `delimiter`: `Some` of the fields exactly when
/// there are `n` of them.
pub fn split_exact<'a>(input: &'a str, delimiter: char, n: usize) -> (r: Option<Vec<&'a str>>)
    ensures
        r.is_some() <==> fields(input@, delimiter).len() == n,
        r matches Some(v) ==> v@.len() == n && forall|i: int|
            0 <= i < n ==> #[trigger] v@[i]@ == fields(input@, delimiter)[i],
{
    let mut output: Vec<&'a str> = Vec::new();
    let mut rest: &'a str = input;
    loop
        invariant
            output@.len() < n || n == 0,
            fields(input@, delimiter).len() == output@.len() + fields(rest@, delimiter).len(),
            forall|i: int| 0 <= i < output@.len() ==> #[trigger] output@[i]@ == fields(input@, delimiter)[i],
            forall|i: int| 0 <= i < fields(rest@, delimiter).len() ==> #[trigger] fields(rest@, delimiter)[i]
                == fields(input@, delimiter)[output@.len() + i],
        decreases rest@.len(),
    {
        proof {
            rest@.index_of_first_ensures(delimiter);
        }
        if n == 0 {
            return None;
        }
        let (left, right) = split_once_optional(rest, delimiter);
        let ghost prev = output@;
        proof {
            match right {
                Some(r) => {
                    assert(fields(rest@, delimiter) =~= seq![left@] + fields(r@, delimiter));
                },
                None => {
                    assert(fields(rest@, delimiter) =~= seq![rest@]);
                },
            }
            assert(fields(rest@, delimiter)[0] == left@);
            assert(fields(rest@, delimiter)[0] == fields(input@, delimiter)[prev.len() as int]);
            match right {
                Some(r) => {
                    assert forall|i: int| 0 <= i < fields(r@, delimiter).len() implies #[trigger] fields(r@, delimiter)[i]
                        == fields(input@, delimiter)[prev.len() as int + 1 + i] by {
                        assert(fields(r@, delimiter)[i] == fields(rest@, delimiter)[i + 1]);
                    }
                },
                None => {},
            }
        }
        output.push(left);
        assert(output@[prev.len() as int] == left);
        match right {
            None => {
                if output.len() == n {
                    return Some(output);
                }
                return None;
            },
            Some(r) => {
                if output.len() == n {
                    return None;
                }
                rest = r;
            },
        }
    }
}

} // verus!
