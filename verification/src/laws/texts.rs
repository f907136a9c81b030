//! Laws about texts and small values.
use crate::compile::{is_white_space, trimmed};
use crate::failure::{failure_message, shows_backtrace};
use crate::frames::recursion_message;
use crate::machine::HashSecret;
use crate::protocol::{StdStream, TraceEvent};
use crate::settings::PySettings;
use vstd::prelude::*;

verus! {

/// What is left of a text without the white space at its end: the text begins with it,
/// it does not end with white space, and nothing but white space was taken.
pub proof fn trimming_takes_white_space_only(s: Seq<char>)
    ensures
        trimmed(s).len() <= s.len(),
        trimmed(s) == s.take(trimmed(s).len() as int),
        trimmed(s).len() > 0 ==> !is_white_space(trimmed(s).last()),
        forall|i: int| trimmed(s).len() <= i < s.len() ==> is_white_space(#[trigger] s[i]),
    decreases s.len(),
{
    if s.len() > 0 && is_white_space(s.last()) {
        let t = s.drop_last();
        trimming_takes_white_space_only(t);
        assert(t.take(trimmed(s).len() as int) =~= s.take(trimmed(s).len() as int));
        assert forall|i: int| trimmed(s).len() <= i < s.len() implies is_white_space(
            #[trigger] s[i],
        ) by {
            if i < t.len() {
                assert(t[i] == s[i]);
            }
        }
    } else {
        assert(s.take(s.len() as int) =~= s);
    }
}

/// White space of the ASCII characters is the blank, and the characters from tab to
/// carriage return.
pub proof fn ascii_white_space(c: char)
    requires
        (c as int) < 0x80,
    ensures
        is_white_space(c) <==> c == ' ' || 0x9 <= c as int <= 0xd,
{
}

/// An exception that nothing handles is printed where the variable is set to anything
/// but `0`, and always where there are no variables. The message says which it is.
pub proof fn backtraces_are_shown_on_demand(msg: Seq<char>, var: Option<String>)
    ensures
        shows_backtrace(false, var),
        shows_backtrace(true, None) == false,
        var matches Some(value) ==> shows_backtrace(true, var) == (value@ != "0"@),
        failure_message(msg, true) == msg + "; "@ + "exception backtrace above"@,
        failure_message(msg, false) == msg + "; "@
            + "run with RUST_BACKTRACE=1 to see Python backtrace"@,
{
}

/// What the machine says and is given in words.
pub proof fn words_of_the_machine(place: Seq<char>)
    ensures
        TraceEvent::Call.text() == "call"@,
        TraceEvent::Return.text() == "return"@,
        recursion_message(place) == "maximum recursion depth exceeded "@ + place,
        StdStream::Stdin.name() == "stdin"@,
        StdStream::Stdout.name() == "stdout"@,
        StdStream::Stderr.name() == "stderr"@,
        StdStream::Stdin.mode() == "r"@,
        StdStream::Stdout.mode() == "w"@,
        StdStream::Stderr.mode() == "w"@,
        StdStream::Stdin.fd() == 0,
        StdStream::Stdout.fd() == 1,
        StdStream::Stderr.fd() == 2,
{
}

/// A hash seed is kept as the secret; without one the secret is random.
pub proof fn secrets_follow_the_setting(secret: HashSecret, seed: u32)
    ensures
        secret.fits(Some(seed)) <==> secret == HashSecret::Seeded(seed),
        secret.fits(None) <==> secret is Random,
{
}

/// The default settings leave every switch off and give nothing.
pub proof fn default_settings_are_off(settings: PySettings)
    requires
        settings.is_default(),
    ensures
        !settings.debug && !settings.inspect && !settings.interactive && !settings.quiet,
        !settings.no_user_site && !settings.no_site && !settings.ignore_environment,
        !settings.dont_write_bytecode && !settings.isolated && !settings.dev_mode,
        settings.optimize == 0 && settings.verbose == 0 && settings.bytes_warning == 0,
        settings.xopts@.len() == 0 && settings.warnopts@.len() == 0,
        settings.path_list@.len() == 0 && settings.argv@.len() == 0,
        settings.hash_seed is None,
{
}

} // verus!
