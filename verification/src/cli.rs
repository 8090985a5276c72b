//! The decisions of the command-line tool that encodes and decodes Stacks
//! addresses: which command the arguments ask for, and what to print and
//! with which exit code.

use vstd::prelude::*;
use vstd::string::StringSliceAdditionalSpecFns;
use vstd::utf8::{decode_utf8, valid_utf8};
use crate::c32::{
    c32_address, c32_address_decode, c32_address_result, c32_decode_answers, c32_decode_result,
    decode_view,
};
use crate::keys::{decimal, push_decimal_u64};

verus! {

/// A character is an ASCII decimal digit.
pub open spec fn is_digit(c: char) -> bool {
    '0' <= c && c <= '9'
}

/// The value of a string of ASCII decimal digits.
pub open spec fn digits_value(s: Seq<char>) -> nat
    decreases s.len(),
{
    if s.len() == 0 {
        0
    } else {
        digits_value(s.drop_last()) * 10 + ((s.last() as nat) - 48) as nat
    }
}

/// What `str::parse::<u8>` accepts, as its documentation says: an optional
/// `+` followed by one or more decimal digits, of a value that fits in `u8`.
pub open spec fn parsed_u8(s: Seq<char>) -> Option<u8> {
    let digits = if s.len() > 0 && s[0] == '+' { s.drop_first() } else { s };
    if digits.len() > 0 && (forall|i: int| 0 <= i < digits.len() ==> is_digit(#[trigger] digits[i]))
        && digits_value(digits) <= 255 {
        Some(digits_value(digits) as u8)
    } else {
        None
    }
}

/// Calls `str::parse::<u8>`, turning its error into its text. The text of
/// the error is not stated.
#[verifier::external_body]
fn parse_u8(s: &str) -> (res: Result<u8, String>)
    ensures
        match res {
            Ok(v) => parsed_u8(s@) == Some(v),
            Err(_) => parsed_u8(s@) is None,
        },
{
    match s.parse::<u8>() {
        Ok(v) => Ok(v),
        Err(e) => Err(e.to_string()),
    }
}

/// Calls `String::from_utf8`, turning its error into its text. It accepts
/// exactly the valid UTF-8 byte strings and decodes them; the text of the
/// error is not stated.
#[verifier::external_body]
fn string_from_utf8(bytes: Vec<u8>) -> (res: Result<String, String>)
    ensures
        res is Ok <==> valid_utf8(bytes@),
        res matches Ok(s) ==> s@ == decode_utf8(bytes@),
{
    match String::from_utf8(bytes) {
        Ok(s) => Ok(s),
        Err(e) => Err(e.to_string()),
    }
}

/// What the tool prints and its exit code.
pub struct CliOutcome {
    pub stdout: Vec<String>,
    pub stderr: Vec<String>,
    pub exit_code: i32,
}

/// The lines of a list of strings.
pub open spec fn lines(v: Seq<String>) -> Seq<Seq<char>> {
    v.map_values(|s: String| s@)
}

/// The command that the arguments ask for.
pub enum CliCommand {
    /// Encode the bytes of a payload under a version, both as given.
    Encode(String, String),
    /// Decode an address.
    Decode(String),
    /// Show how to call the tool, whose name is given.
    Usage(String),
}

/// Two strings are equal.
fn is_word(s: &String, word: &str) -> (res: bool)
    ensures
        res == (s@ == word@),
{
    *s == word.to_owned()
}

/// The command: `encode VERSION PAYLOAD`, `decode PAYLOAD`, or anything
/// else, which asks for the usage. The first argument is the tool's name.
pub fn parse_cli_args(args: &Vec<String>) -> (res: CliCommand)
    requires
        args@.len() >= 1,
    ensures
        args@.len() == 4 && args@[1]@ == "encode"@ ==> (res matches CliCommand::Encode(v, p)
            && v@ == args@[2]@ && p@ == args@[3]@),
        args@.len() == 3 && args@[1]@ == "decode"@ ==> (res matches CliCommand::Decode(p) && p@ == args@[2]@),
        !(args@.len() == 4 && args@[1]@ == "encode"@) && !(args@.len() == 3 && args@[1]@ == "decode"@)
            ==> (res matches CliCommand::Usage(prog) && prog@ == args@[0]@),
{
    if args.len() == 4 && is_word(&args[1], "encode") {
        CliCommand::Encode(args[2].clone(), args[3].clone())
    } else if args.len() == 3 && is_word(&args[1], "decode") {
        CliCommand::Decode(args[2].clone())
    } else {
        CliCommand::Usage(args[0].clone())
    }
}

/// One line on the error stream, and failure.
fn failure(message: String) -> (res: CliOutcome)
    ensures
        lines(res.stdout@) == Seq::<Seq<char>>::empty(),
        lines(res.stderr@) == seq![message@],
        res.exit_code == 1,
{
    let mut stderr: Vec<String> = Vec::new();
    stderr.push(message);
    let res = CliOutcome { stdout: Vec::new(), stderr, exit_code: 1 };
    assert(lines(res.stdout@) =~= Seq::<Seq<char>>::empty());
    assert(lines(res.stderr@) =~= seq![message@]);
    res
}

/// `Error: ` and the text of an error.
fn error_line(text: &str) -> (res: String)
    ensures
        res@ == "Error: "@ + text@,
{
    let mut line = "Error: ".to_owned();
    line.append(text);
    line
}

/// How to call the tool.
pub fn usage(prog: &str) -> (res: CliOutcome)
    ensures
        lines(res.stdout@) == Seq::<Seq<char>>::empty(),
        lines(res.stderr@) == seq!["Usage: "@ + prog@ + " {encode VERSION STRING | decode PAYLOAD}"@],
        res.exit_code == 1,
{
    let mut line = "Usage: ".to_owned();
    line.append(prog);
    line.append(" {encode VERSION STRING | decode PAYLOAD}");
    failure(line)
}

/// Encodes the bytes of `payload` under `version`: prints the address, or
/// the error of the version or of the encoding.
pub fn run_encode(version: &str, payload: &str) -> (res: CliOutcome)
    ensures
        match parsed_u8(version@) {
            None => {
                &&& lines(res.stdout@) == Seq::<Seq<char>>::empty()
                &&& lines(res.stderr@).len() == 1
                &&& lines(res.stderr@)[0].take(7) == "Error: "@
                &&& res.exit_code == 1
            },
            Some(v) => match c32_address_result(v, payload.spec_bytes()) {
                Ok(address) => lines(res.stdout@) == seq![address] && lines(res.stderr@) == Seq::<Seq<char>>::empty()
                    && res.exit_code == 0,
                Err(e) => lines(res.stdout@) == Seq::<Seq<char>>::empty() && lines(res.stderr@) == seq!["Error: "@ + e]
                    && res.exit_code == 1,
            },
        },
{
    let version_num = match parse_u8(version) {
        Ok(v) => v,
        Err(err) => {
            proof { reveal_strlit("Error: "); }
            let line = error_line(err.as_str());
            assert(line@.take(7) =~= "Error: "@);
            return failure(line);
        },
    };
    match c32_address(version_num, payload.as_bytes()) {
        Ok(encoded) => {
            let mut stdout: Vec<String> = Vec::new();
            let ghost e = encoded@;
            stdout.push(encoded);
            let res = CliOutcome { stdout, stderr: Vec::new(), exit_code: 0 };
            assert(lines(res.stdout@) =~= seq![e]);
            assert(lines(res.stderr@) =~= Seq::<Seq<char>>::empty());
            res
        },
        Err(err) => failure(error_line(err.as_str())),
    }
}

/// What the tool prints for a decoded address (`decoded`, by its view): the
/// version and the payload as text, or the error of the decoding or of the
/// text.
pub open spec fn decode_outcome(decoded: Result<(u8, Seq<u8>), Seq<char>>, res: CliOutcome) -> bool {
    match decoded {
        Err(e) => lines(res.stdout@) == Seq::<Seq<char>>::empty() && lines(res.stderr@) == seq!["Error: "@ + e]
            && res.exit_code == 1,
        Ok((version, bytes)) => if valid_utf8(bytes) {
            &&& lines(res.stdout@) == seq!["version: "@ + decimal(version as nat), "decoded: "@ + decode_utf8(bytes)]
            &&& lines(res.stderr@) == Seq::<Seq<char>>::empty()
            &&& res.exit_code == 0
        } else {
            &&& lines(res.stdout@) == Seq::<Seq<char>>::empty()
            &&& lines(res.stderr@).len() == 1
            &&& lines(res.stderr@)[0].take(7) == "Error: "@
            &&& res.exit_code == 1
        },
    }
}

/// Decodes an address and prints its version and payload as text, or the
/// error.
pub fn run_decode(payload: &str) -> (res: CliOutcome)
    ensures
        c32_decode_answers(payload@) ==> decode_outcome(c32_decode_result(payload@), res),
        !c32_decode_answers(payload@) ==> decode_outcome(
            Err::<(u8, Seq<u8>), Seq<char>>("address payload too short to decode"@), res),
{
    finish_decode(c32_address_decode(payload))
}

/// Prints what an address decoded to: its version and its payload as text,
/// or the error of the decoding or of the text.
pub fn finish_decode(decoded: Result<(u8, Vec<u8>), String>) -> (res: CliOutcome)
    ensures
        decode_outcome(decode_view(decoded), res),
{
    match decoded {
        Ok((version, bytes)) => {
            let text = match string_from_utf8(bytes) {
                Ok(text) => text,
                Err(err) => {
                    proof { reveal_strlit("Error: "); }
                    let line = error_line(err.as_str());
                    assert(line@.take(7) =~= "Error: "@);
                    return failure(line);
                },
            };
            let mut first = "version: ".to_owned();
            push_decimal_u64(&mut first, version as u64);
            let mut second = "decoded: ".to_owned();
            second.append(text.as_str());
            let ghost (l1, l2) = (first@, second@);
            let mut stdout: Vec<String> = Vec::new();
            stdout.push(first);
            stdout.push(second);
            let res = CliOutcome { stdout, stderr: Vec::new(), exit_code: 0 };
            assert(lines(res.stdout@) =~= seq![l1, l2]);
            assert(lines(res.stderr@) =~= Seq::<Seq<char>>::empty());
            res
        },
        Err(err) => failure(error_line(err.as_str())),
    }
}

} // verus!
