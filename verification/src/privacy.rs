//! Detection of commands that look like they carry credentials.
use vstd::prelude::*;
use crate::text::{chars_of, contains, contains_exec, lower, lower_chars};

verus! {

/// The fragments whose presence, ignoring ASCII case, makes a command sensitive.
pub open spec fn sensitive_keywords() -> Seq<Seq<char>> {
    seq![
        "password"@,
        "passwd"@,
        "token"@,
        "secret"@,
        "apikey"@,
        "api_key"@,
        "access_key"@,
        "private_key"@,
        "authorization"@,
        "bearer "@,
        "cookie"@,
        "set-cookie"@,
        "aws_secret_access_key"@,
        "ghp_"@,
        "xoxb-"@,
    ]
}

/// The command, in ASCII lower case, contains one of the sensitive keywords.
pub open spec fn sensitive(command: Seq<char>) -> bool {
    exists|k: int| 0 <= k < sensitive_keywords().len() && contains(lower(command), #[trigger] sensitive_keywords()[k])
}

/// Whether `command` looks like it carries a secret (a password, a token, a key, a cookie ...):
/// it does exactly when, ignoring ASCII case, it contains one of `sensitive_keywords()`.
pub fn is_sensitive_command(command: &str) -> (res: bool)
    ensures
        res == sensitive(command@),
{
    let lower_cmd = lower_chars(&chars_of(command));
    let keywords: [&str; 15] = [
        "password",
        "passwd",
        "token",
        "secret",
        "apikey",
        "api_key",
        "access_key",
        "private_key",
        "authorization",
        "bearer ",
        "cookie",
        "set-cookie",
        "aws_secret_access_key",
        "ghp_",
        "xoxb-",
    ];
    assert forall|k: int| 0 <= k < 15 implies #[trigger] keywords@[k]@ == sensitive_keywords()[k] by {
    }
    let mut i: usize = 0;
    while i < 15
        invariant
            i <= 15,
            lower_cmd@ == lower(command@),
            forall|k: int| 0 <= k < 15 ==> #[trigger] keywords@[k]@ == sensitive_keywords()[k],
            forall|k: int| 0 <= k < i ==> !contains(lower(command@), #[trigger] sensitive_keywords()[k]),
        decreases 15 - i,
    {
        let kw = chars_of(keywords[i]);
        if contains_exec(&lower_cmd, &kw) {
            assert(contains(lower(command@), sensitive_keywords()[i as int]));
            return true;
        }
        i = i + 1;
    }
    false
}

} // verus!

verus! {

/// ASCII case does not matter to whether a command is sensitive.
pub proof fn lemma_sensitive_ignores_case(command: Seq<char>)
    ensures
        sensitive(lower(command)) == sensitive(command),
{
    assert(lower(lower(command)) =~= lower(command));
}

/// A command that holds a sensitive command, with anything before and after, is sensitive too.
pub proof fn lemma_sensitive_survives_extension(command: Seq<char>, before: Seq<char>, after: Seq<char>)
    requires
        sensitive(command),
    ensures
        sensitive(before + command + after),
{
    let big = before + command + after;
    let k = choose|k: int|
        0 <= k < sensitive_keywords().len() && contains(lower(command), #[trigger] sensitive_keywords()[k]);
    let kw = sensitive_keywords()[k];
    let i = choose|i: int| crate::text::occurs_at(lower(command), kw, i);
    assert(lower(big) == lower(before) + lower(command) + lower(after));
    assert(lower(big).subrange(i + before.len(), i + before.len() + kw.len()) =~= lower(command).subrange(i, i + kw.len()));
    assert(crate::text::occurs_at(lower(big), kw, i + before.len()));
}

/// The keyword list: a command is sensitive exactly when, in ASCII lower case, it contains
/// one of `password`, `passwd`, `token`, `secret`, `apikey`, `api_key`, `access_key`,
/// `private_key`, `authorization`, `bearer ` (with its space), `cookie`, `set-cookie`,
/// `aws_secret_access_key`, `ghp_` or `xoxb-`; any other text, such as `ssh-keygen -t ed25519`,
/// is not.
pub proof fn lemma_sensitive_keyword_list(command: Seq<char>)
    ensures
        sensitive(command) <==> {
            let c = lower(command);
            ||| contains(c, "password"@)
            ||| contains(c, "passwd"@)
            ||| contains(c, "token"@)
            ||| contains(c, "secret"@)
            ||| contains(c, "apikey"@)
            ||| contains(c, "api_key"@)
            ||| contains(c, "access_key"@)
            ||| contains(c, "private_key"@)
            ||| contains(c, "authorization"@)
            ||| contains(c, "bearer "@)
            ||| contains(c, "cookie"@)
            ||| contains(c, "set-cookie"@)
            ||| contains(c, "aws_secret_access_key"@)
            ||| contains(c, "ghp_"@)
            ||| contains(c, "xoxb-"@)
        },
{
    let ks = sensitive_keywords();
    assert(ks.len() == 15);
    assert(ks[0] == "password"@);
    assert(ks[1] == "passwd"@);
    assert(ks[2] == "token"@);
    assert(ks[3] == "secret"@);
    assert(ks[4] == "apikey"@);
    assert(ks[5] == "api_key"@);
    assert(ks[6] == "access_key"@);
    assert(ks[7] == "private_key"@);
    assert(ks[8] == "authorization"@);
    assert(ks[9] == "bearer "@);
    assert(ks[10] == "cookie"@);
    assert(ks[11] == "set-cookie"@);
    assert(ks[12] == "aws_secret_access_key"@);
    assert(ks[13] == "ghp_"@);
    assert(ks[14] == "xoxb-"@);
}

} // verus!
