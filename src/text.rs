//! Lossy text rendering of command lines for diagnostics.

use vstd::prelude::*;

verus! {

/// The text that lossy UTF-8 decoding makes of `bytes`: invalid sequences
/// become U+FFFD, valid ones decode as they are.
pub uninterp spec fn lossy_text(bytes: Seq<u8>) -> Seq<char>;

/// Relies on `String::from_utf8_lossy`, whose result depends on the bytes alone.
#[verifier::external_body]
pub(crate) fn lossy(bytes: &[u8]) -> (r: String)
    ensures
        r@ == lossy_text(bytes@),
{
    String::from_utf8_lossy(bytes).into_owned()
}

/// The arguments as they follow the program in a rendering: each one preceded
/// by a single space.
pub open spec fn args_text(args: Seq<Seq<u8>>) -> Seq<char>
    decreases args.len(),
{
    if args.len() == 0 {
        Seq::empty()
    } else {
        args_text(args.drop_last()) + " "@ + lossy_text(args.last())
    }
}

/// The program followed by its arguments, space separated.
pub open spec fn command_text(program: Seq<u8>, args: Seq<Seq<u8>>) -> Seq<char> {
    lossy_text(program) + args_text(args)
}

/// `text` between backticks.
pub open spec fn quoted(text: Seq<char>) -> Seq<char> {
    "`"@ + text + "`"@
}

/// Renders `program` and `args` as `command_text` describes.
pub(crate) fn render(program: &Vec<u8>, args: &Vec<Vec<u8>>) -> (r: String)
    ensures
        r@ == command_text(program@, args@.map_values(|a: Vec<u8>| a@)),
{
    let ghost views = args@.map_values(|a: Vec<u8>| a@);
    let mut out = lossy(program.as_slice());
    let mut i: usize = 0;
    while i < args.len()
        invariant
            i <= args.len(),
            views == args@.map_values(|a: Vec<u8>| a@),
            out@ == lossy_text(program@) + args_text(views.take(i as int)),
        decreases args.len() - i,
    {
        let piece = lossy(args[i].as_slice());
        out.append(" ");
        out.append(piece.as_str());
        proof {
            assert(views.take(i as int + 1).drop_last() =~= views.take(i as int));
        }
        i += 1;
    }
    proof {
        assert(views.take(i as int) =~= views);
    }
    out
}

} // verus!
