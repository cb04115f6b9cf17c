//! What the reporting layer needs from the core: the output format chosen
//! by the caller and the rule for trimming long command lines.

use vstd::prelude::*;

verus! {

/// How results are rendered by the embedding program.
#[derive(Debug, Clone, Copy, PartialEq, Eq, Structural)]
pub enum OutputFormat {
    Table,
    Json,
    Plain,
}

/// Trims a command line for table display: up to 80 characters it is kept
/// whole; a longer one is cut to its first 77 characters with a trailing
/// ellipsis.
pub fn truncate_command(s: &str) -> (r: String)
    ensures
        s@.len() <= 80 ==> r@ == s@,
        s@.len() > 80 ==> r@ == s@.take(77) + "..."@,
{
    let n = s.unicode_len();
    if n <= 80 {
        s.to_owned()
    } else {
        let head = s.substring_char(0, 77);
        let mut r = head.to_owned();
        r.append("...");
        proof {
            assert(s@.subrange(0, 77) =~= s@.take(77));
        }
        r
    }
}

} // verus!
