//! What the user is asked, and how the answers are read.

use crate::text::{same_text, strip_newline, trim, trimmed, without_newline};
use vstd::prelude::*;
use vstd::string::*;

verus! {

/// A line confirms the wipe when it is `YES` and nothing else, a line
/// ending aside: no other case, no blank before or after.
pub open spec fn confirms(line: Seq<char>) -> bool {
    without_newline(line) == "YES"@
}

/// The mapper label that a line names: the line without the white space
/// around it.  Whatever is left is the label, even if nothing is left.
pub open spec fn label_of(line: Seq<char>) -> Seq<char> {
    trimmed(line)
}

/// The file-system type that a line names: `ext4` for a blank line, else
/// the line without the white space around it.
pub open spec fn filesystem_of(line: Seq<char>) -> Seq<char> {
    if trimmed(line).len() == 0 {
        "ext4"@
    } else {
        trimmed(line)
    }
}

/// The warning and question put before `device` is wiped.
pub open spec fn confirm_prompt(device: Seq<char>) -> Seq<char> {
    "Are you SURE you want to luksFormat "@ + device
        + "? THIS *WILL* WIPE ALL DATA ON IT!\nEnter the string yes in all capitals to continue: "@
}

/// The question for the mapper label of a new volume.
pub open spec fn label_prompt() -> Seq<char> {
    "Give your new luks volume a mapper label: "@
}

/// The question for the file-system type of a new volume.
pub open spec fn filesystem_prompt() -> Seq<char> {
    "What file system would you like this drive to have?\n(default = ext4): "@
}

/// The question for the file-system type, asked again because the program
/// `missing` is not installed.
pub open spec fn retry_prompt(missing: Seq<char>) -> Seq<char> {
    "Could not find "@ + missing + ", please try again.\n"@ + filesystem_prompt()
}

/// Exactly three lines confirm: `YES` alone, or followed by `"\n"` or
/// `"\r\n"`.
pub proof fn lemma_confirming_lines(line: Seq<char>)
    ensures
        confirms(line) <==> (line == "YES"@ || line == "YES\n"@ || line == "YES\r\n"@),
{
    reveal_strlit("YES");
    reveal_strlit("YES\n");
    reveal_strlit("YES\r\n");
    let yes = "YES"@;
    assert(yes.len() == 3 && yes[0] == 'Y' && yes[1] == 'E' && yes[2] == 'S');
    if confirms(line) {
        if line.len() > 0 && line.last() == '\n' {
            let t = line.drop_last();
            if t.len() > 0 && t.last() == '\r' {
                assert(t.drop_last() == yes);
                assert(line =~= "YES\r\n"@);
            } else {
                assert(t == yes);
                assert(line =~= "YES\n"@);
            }
        } else {
            assert(line == yes);
        }
    }
    if line == "YES\n"@ {
        assert(line.drop_last() =~= yes);
    }
    if line == "YES\r\n"@ {
        assert(line.drop_last().drop_last() =~= yes);
    }
}

/// Tells whether `line`, as read from the terminal, confirms the wipe.
pub fn is_confirmation(line: &str) -> (r: bool)
    ensures
        r == confirms(line@),
{
    let bare = strip_newline(line);
    same_text(bare.as_str(), "YES")
}

/// Returns the mapper label that `line` names.
pub fn read_label(line: &str) -> (r: String)
    ensures
        r@ == label_of(line@),
{
    trim(line)
}

/// Returns the file-system type that `line` names.
pub fn read_filesystem(line: &str) -> (r: String)
    ensures
        r@ == filesystem_of(line@),
{
    let t = trim(line);
    if t.as_str().unicode_len() == 0 {
        String::from_str("ext4")
    } else {
        t
    }
}

/// Returns the warning and question put before `device` is wiped.
pub fn ask_confirmation(device: &str) -> (r: String)
    ensures
        r@ == confirm_prompt(device@),
{
    String::from_str("Are you SURE you want to luksFormat ").concat(device).concat(
        "? THIS *WILL* WIPE ALL DATA ON IT!\nEnter the string yes in all capitals to continue: ",
    )
}

/// Returns the question for the mapper label of a new volume.
pub fn ask_label() -> (r: String)
    ensures
        r@ == label_prompt(),
{
    String::from_str("Give your new luks volume a mapper label: ")
}

/// Returns the question for the file-system type of a new volume.
pub fn ask_filesystem() -> (r: String)
    ensures
        r@ == filesystem_prompt(),
{
    String::from_str("What file system would you like this drive to have?\n(default = ext4): ")
}

/// Returns the question for the file-system type, asked again because
/// the program `missing` is not installed.
pub fn ask_filesystem_again(missing: &str) -> (r: String)
    ensures
        r@ == retry_prompt(missing@),
{
    String::from_str("Could not find ").concat(missing).concat(", please try again.\n").concat(
        "What file system would you like this drive to have?\n(default = ext4): ",
    )
}

} // verus!
