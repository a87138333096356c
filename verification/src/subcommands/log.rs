//! The one-line summaries that list the journal's entries.

use vstd::prelude::*;
use vstd::string::StringExecFns;
use crate::db::{concat, groups_of};
use crate::post::EchoPost;
use crate::text::{decimal, decimal_text, summary, summary_of};

verus! {

/// How many characters of an entry its line in the list shows.
pub const LOG_SUMMARY_CHARS: usize = 50;

/// How many characters of a new entry are shown back to its writer.
pub const NEW_SUMMARY_CHARS: usize = 15;

/// The line that lists an entry: its number, a colon and a space, and the
/// start of its text.
pub open spec fn log_line(number: int, text: Seq<char>) -> Seq<char> {
    decimal_text(number) + seq![':', ' '] + summary_of(text, LOG_SUMMARY_CHARS as int)
}

/// The lines that list `entries`, the first of which has the number
/// `num_posts`, each of the others one less than the one before it.
pub open spec fn log_lines_of(entries: Seq<EchoPost>, num_posts: int) -> Seq<Seq<char>> {
    Seq::new(entries.len(), |i: int| log_line(num_posts - i, entries[i].text@))
}

/// `lines` one after another, with a line feed between each two.
pub open spec fn joined(lines: Seq<Seq<char>>) -> Seq<char>
    decreases lines.len(),
{
    if lines.len() == 0 {
        Seq::empty()
    } else if lines.len() == 1 {
        lines[0]
    } else {
        joined(lines.drop_last()) + seq!['\n'] + lines.last()
    }
}

/// The name of the file that holds the list while it is shown: a fixed
/// prefix, the number of the process, and the number of files that the
/// process has asked for before, so that no two lists share a file.
pub open spec fn temp_file_name_of(process_id: int, count: int) -> Seq<char> {
    "xvrqt_echo_"@ + decimal_text(process_id) + "_"@ + decimal_text(count) + "txt"@
}

/// Computes [`temp_file_name_of`].
pub fn temp_file_name(process_id: u32, count: usize) -> (name: String)
    ensures
        name@ == temp_file_name_of(process_id as int, count as int),
{
    let id = decimal(process_id as i128);
    let number = decimal(count as i128);
    let name = String::from_str("xvrqt_echo_").concat(id.as_str()).concat("_").concat(
        number.as_str(),
    ).concat("txt");
    assert(name@ =~= temp_file_name_of(process_id as int, count as int));
    name
}

/// The line that lists the entry with the given number and text.
pub fn entry_line(number: i128, text: &str) -> (s: String)
    ensures
        s@ == log_line(number as int, text@),
{
    proof {
        reveal_strlit(": ");
    }
    let start = summary(text, LOG_SUMMARY_CHARS);
    let s = decimal(number).concat(": ").concat(start.as_str());
    assert(s@ =~= log_line(number as int, text@));
    s
}

/// The lines that list the entries of `posts`, day after day. The first
/// line has the number `num_posts`, the number of entries in the journal,
/// and each line after it one less: the newest entry comes first.
pub fn log_lines(posts: &Vec<Vec<EchoPost>>, num_posts: isize) -> (lines: Vec<String>)
    ensures
        lines@.len() == concat(groups_of(posts@)).len(),
        forall|i: int|
            0 <= i < lines@.len() ==> (#[trigger] lines@[i])@ == log_line(
                num_posts - i,
                concat(groups_of(posts@))[i].text@,
            ),
{
    let ghost groups = groups_of(posts@);
    let mut lines: Vec<String> = Vec::new();
    let mut g: usize = 0;
    while g < posts.len()
        invariant
            g <= posts.len(),
            groups == groups_of(posts@),
            lines@.len() == concat(groups.take(g as int)).len(),
            forall|i: int|
                0 <= i < lines@.len() ==> (#[trigger] lines@[i])@ == log_line(
                    num_posts - i,
                    concat(groups.take(g as int))[i].text@,
                ),
        decreases posts.len() - g,
    {
        let ghost done = concat(groups.take(g as int));
        let day = &posts[g];
        proof {
            assert(groups.take(g + 1).drop_last() =~= groups.take(g as int));
            assert(groups.take(g + 1).last() == day@);
            assert(concat(groups.take(g + 1)) == done + day@);
        }
        let mut j: usize = 0;
        while j < day.len()
            invariant
                j <= day.len(),
                lines@.len() == done.len() + j,
                forall|i: int|
                    0 <= i < lines@.len() ==> (#[trigger] lines@[i])@ == log_line(
                        num_posts - i,
                        (done + day@)[i].text@,
                    ),
            decreases day.len() - j,
        {
            let number: i128 = num_posts as i128 - lines.len() as i128;
            lines.push(entry_line(number, day[j].text.as_str()));
            j += 1;
        }
        g += 1;
    }
    proof {
        assert(groups.take(posts.len() as int) =~= groups);
    }
    lines
}

/// The lines as one text, with a line feed between each two.
pub fn join_lines(lines: &Vec<String>) -> (text: String)
    ensures
        text@ == joined(Seq::new(lines@.len(), |i: int| lines@[i]@)),
{
    let ghost all = Seq::new(lines@.len(), |i: int| lines@[i]@);
    let mut text = String::new();
    let mut i: usize = 0;
    while i < lines.len()
        invariant
            i <= lines.len(),
            all == Seq::new(lines@.len(), |i: int| lines@[i]@),
            text@ == joined(all.take(i as int)),
        decreases lines.len() - i,
    {
        proof {
            reveal_strlit("\n");
            assert(all.take(i + 1).drop_last() =~= all.take(i as int));
            assert(all.take(i + 1).last() == lines@[i as int]@);
            if i == 1 {
                assert(all.take(1)[0] == all.take(2).drop_last()[0]);
            }
        }
        if i > 0 {
            text.append("\n");
        }
        text.append(lines[i].as_str());
        proof {
            if i == 0 {
                assert(text@ =~= all.take(1)[0]);
            } else {
                assert(text@ =~= joined(all.take(i as int)) + seq!['\n'] + lines@[i as int]@);
            }
        }
        i += 1;
    }
    proof {
        assert(all.take(lines.len() as int) =~= all);
    }
    text
}

} // verus!
