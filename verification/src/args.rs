//! The argument builder: a pure mapping from a run request to the ordered
//! argument vector handed to the worker process.
//!
//! The grammar is fixed:
//! `run --file <path> --template <id> --minutes <n> [--smart] [--highlights]
//! [--brand <name>]`. Tokens are passed to the process launcher literally,
//! never through a shell, so no quoting or escaping is performed here.

use vstd::prelude::*;

use crate::decimal::{dec_str, is_digit, lemma_dec_str_digits, u32_to_decimal};

verus! {

/// The parameters of one worker run, immutable once constructed.
pub struct RunRequest {
    /// Path of the source media file.
    pub file: String,
    /// Identifier of the template to apply.
    pub template: String,
    /// Duration budget in minutes.
    pub minutes: u32,
    /// Whether smart mode is requested.
    pub smart: bool,
    /// Whether highlight extraction is requested.
    pub highlights: bool,
    /// Optional brand string.
    pub brand: Option<String>,
}

/// The three always-emitted flag/value pairs, behind the `run` subcommand.
pub open spec fn required_tokens(req: RunRequest) -> Seq<Seq<char>> {
    seq![
        "run"@,
        "--file"@,
        req.file@,
        "--template"@,
        req.template@,
        "--minutes"@,
        dec_str(req.minutes as nat),
    ]
}

/// The optional tokens, in their fixed relative order: `--smart`, then
/// `--highlights`, then `--brand <name>` last.
pub open spec fn optional_tokens(req: RunRequest) -> Seq<Seq<char>> {
    (if req.smart {
        seq!["--smart"@]
    } else {
        Seq::<Seq<char>>::empty()
    }) + (if req.highlights {
        seq!["--highlights"@]
    } else {
        Seq::<Seq<char>>::empty()
    }) + (match req.brand {
        Some(brand) => seq!["--brand"@, brand@],
        None => Seq::<Seq<char>>::empty(),
    })
}

/// The full argument vector for `req`.
pub open spec fn arg_tokens(req: RunRequest) -> Seq<Seq<char>> {
    required_tokens(req) + optional_tokens(req)
}

/// Builds the argument vector for one run of the worker.
pub fn build_args(req: &RunRequest) -> (v: Vec<String>)
    ensures
        v@.map_values(|t: String| t@) == arg_tokens(*req),
{
    let mut v: Vec<String> = Vec::new();
    v.push(String::from_str("run"));
    v.push(String::from_str("--file"));
    v.push(req.file.clone());
    v.push(String::from_str("--template"));
    v.push(req.template.clone());
    v.push(String::from_str("--minutes"));
    v.push(u32_to_decimal(req.minutes));
    if req.smart {
        v.push(String::from_str("--smart"));
    }
    if req.highlights {
        v.push(String::from_str("--highlights"));
    }
    if let Some(brand) = &req.brand {
        v.push(String::from_str("--brand"));
        v.push(brand.clone());
    }
    assert(v@.map_values(|t: String| t@) =~~= arg_tokens(*req));
    v
}

/// The number of optional tokens `req` adds after the required prefix.
pub open spec fn optional_len(req: RunRequest) -> int {
    (if req.smart {
        1int
    } else {
        0int
    }) + (if req.highlights {
        1int
    } else {
        0int
    }) + (if req.brand is Some {
        2int
    } else {
        0int
    })
}

/// The argument vector begins with `run`, carries `--file <file>`,
/// `--template <template>` and `--minutes <minutes>` in that order, and the
/// optional tokens follow in their fixed relative order: `--smart`, then
/// `--highlights`, then `--brand <brand>` last.
pub proof fn lemma_argument_order(req: RunRequest)
    ensures
        arg_tokens(req).len() == 7 + optional_len(req),
        arg_tokens(req)[0] == "run"@,
        arg_tokens(req)[1] == "--file"@,
        arg_tokens(req)[2] == req.file@,
        arg_tokens(req)[3] == "--template"@,
        arg_tokens(req)[4] == req.template@,
        arg_tokens(req)[5] == "--minutes"@,
        arg_tokens(req)[6] == dec_str(req.minutes as nat),
        req.smart ==> arg_tokens(req)[7] == "--smart"@,
        req.highlights ==> arg_tokens(req)[7 + (if req.smart {
            1int
        } else {
            0int
        })] == "--highlights"@,
        req.brand matches Some(brand) ==> arg_tokens(req)[arg_tokens(req).len() - 2] == "--brand"@
            && arg_tokens(req).last() == brand@,
{
}

/// Whether `t` is one of the optional flag tokens of the grammar.
pub open spec fn is_optional_flag_token(t: Seq<char>) -> bool {
    t == "--smart"@ || t == "--highlights"@ || t == "--brand"@
}

/// Whether the free-form fields of `req` (file path, template identifier,
/// brand string) are themselves spelled like an optional flag token. Such a
/// value lands in the vector as an ordinary value token, so token presence
/// alone cannot tell it from the flag.
pub open spec fn has_flag_shaped_field(req: RunRequest) -> bool {
    is_optional_flag_token(req.file@) || is_optional_flag_token(req.template@) || (match req.brand {
        Some(brand) => is_optional_flag_token(brand@),
        None => false,
    })
}

/// The optional flag tokens appear in the argument vector if and only if the
/// corresponding field is set, provided no free-form field is itself spelled
/// like a flag token.
pub proof fn lemma_flag_presence(req: RunRequest)
    requires
        !has_flag_shaped_field(req),
    ensures
        arg_tokens(req).contains("--smart"@) <==> req.smart,
        arg_tokens(req).contains("--highlights"@) <==> req.highlights,
        arg_tokens(req).contains("--brand"@) <==> req.brand is Some,
{
    reveal_strlit("run");
    reveal_strlit("--file");
    reveal_strlit("--template");
    reveal_strlit("--minutes");
    reveal_strlit("--smart");
    reveal_strlit("--highlights");
    reveal_strlit("--brand");
    lemma_dec_str_digits(req.minutes as nat);
    assert(!is_digit('-'));
    assert("--smart"@.first() == '-');
    assert("--highlights"@.first() == '-');
    assert("--brand"@.first() == '-');
    assert(arg_tokens(req)[6] == dec_str(req.minutes as nat));
    assert(!is_optional_flag_token(dec_str(req.minutes as nat)));
    assert("run"@.len() == 3);
    assert("--file"@.len() == 6);
    assert("--template"@.len() == 10);
    assert("--minutes"@.len() == 9);
    assert("--smart"@.len() == 7);
    assert("--highlights"@.len() == 12);
    assert("--brand"@.len() == 7);
    assert("--smart"@[2] == 's' && "--brand"@[2] == 'b');
    lemma_argument_order(req);
    if req.smart {
        assert(arg_tokens(req).contains("--smart"@));
    }
    if req.highlights {
        assert(arg_tokens(req).contains("--highlights"@));
    }
    if req.brand is Some {
        assert(arg_tokens(req)[arg_tokens(req).len() - 2] == "--brand"@);
        assert(arg_tokens(req).contains("--brand"@));
    }
    assert forall|j: int, t: Seq<char>|
        0 <= j < arg_tokens(req).len() && is_optional_flag_token(t) && arg_tokens(req)[j] == t
            implies optional_token_expected(req, t) by {
        lemma_token_at_index(req, j);
    }
}

/// Whether the flag token `t` belongs in the vector for `req`.
spec fn optional_token_expected(req: RunRequest, t: Seq<char>) -> bool {
    (t == "--smart"@ && req.smart) || (t == "--highlights"@ && req.highlights) || (t == "--brand"@
        && req.brand is Some)
}

/// Every position of the argument vector holds either a fixed grammar token,
/// one of the free-form field values, the minutes token, or an optional flag
/// token that its field put there.
proof fn lemma_token_at_index(req: RunRequest, j: int)
    requires
        0 <= j < arg_tokens(req).len(),
    ensures
        arg_tokens(req)[j] == "run"@ || arg_tokens(req)[j] == "--file"@ || arg_tokens(req)[j]
            == req.file@ || arg_tokens(req)[j] == "--template"@ || arg_tokens(req)[j]
            == req.template@ || arg_tokens(req)[j] == "--minutes"@ || arg_tokens(req)[j] == dec_str(
            req.minutes as nat,
        ) || (arg_tokens(req)[j] == "--smart"@ && req.smart) || (arg_tokens(req)[j]
            == "--highlights"@ && req.highlights) || ((arg_tokens(req)[j] == "--brand"@
            || arg_tokens(req)[j] == req.brand->0@) && req.brand is Some),
{
}

} // verus!
