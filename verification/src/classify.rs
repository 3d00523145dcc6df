//! The message classifier: decides whether an inbound message text is a
//! completion command and, if so, extracts the prompt.

use vstd::prelude::*;
use vstd::string::StrSliceExecFns;

verus! {

/// What one inbound message text asks for: nothing, or a completion of the
/// prompt that followed the command prefix.
#[derive(Debug, Clone, PartialEq, Eq)]
pub enum ClassifiedRequest {
    Ignore,
    Complete { prompt: String },
}

/// `text` is a command: it starts with `prefix` followed by a single space.
/// Matching is case-sensitive and exact; a message that merely contains the
/// prefix somewhere later, or consists of the bare prefix with nothing after
/// it, is not a command.
pub open spec fn is_command(text: Seq<char>, prefix: Seq<char>) -> bool {
    &&& text.len() > prefix.len()
    &&& text.subrange(0, prefix.len() as int) == prefix
    &&& text[prefix.len() as int] == ' '
}

/// The prompt carried by a command: everything after the prefix and the one
/// separating space, unchanged. It may be empty or all whitespace; the
/// classifier does no trimming or validation.
pub open spec fn command_prompt(text: Seq<char>, prefix: Seq<char>) -> Seq<char> {
    text.subrange(prefix.len() as int + 1, text.len() as int)
}

/// Classify `text` against `prefix`: `Complete { prompt }` exactly when the
/// text starts with the prefix plus one space, with `prompt` the rest of the
/// text character for character; `Ignore` otherwise.
pub fn classify(text: &str, prefix: &str) -> (r: ClassifiedRequest)
    ensures
        is_command(text@, prefix@) ==> (r matches ClassifiedRequest::Complete { prompt }
            && prompt@ == command_prompt(text@, prefix@)),
        !is_command(text@, prefix@) ==> r == ClassifiedRequest::Ignore,
{
    let text_len = text.unicode_len();
    let prefix_len = prefix.unicode_len();
    if text_len <= prefix_len {
        return ClassifiedRequest::Ignore;
    }
    let mut i: usize = 0;
    while i < prefix_len
        invariant
            i <= prefix_len,
            prefix_len == prefix@.len(),
            text_len == text@.len(),
            text@.len() > prefix@.len(),
            forall|k: int| 0 <= k < i ==> text@[k] == prefix@[k],
        decreases prefix_len - i,
    {
        if text.get_char(i) != prefix.get_char(i) {
            proof {
                assert(!is_command(text@, prefix@)) by {
                    if text@.subrange(0, prefix@.len() as int) == prefix@ {
                        assert(text@.subrange(0, prefix@.len() as int)[i as int]
                            == text@[i as int]);
                    }
                }
            }
            return ClassifiedRequest::Ignore;
        }
        i += 1;
    }
    if text.get_char(prefix_len) != ' ' {
        return ClassifiedRequest::Ignore;
    }
    proof {
        assert(text@.subrange(0, prefix@.len() as int) =~= prefix@);
    }
    let rest = text.substring_char(prefix_len + 1, text_len);
    ClassifiedRequest::Complete { prompt: rest.to_owned() }
}

} // verus!
