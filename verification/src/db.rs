//! What is done with the rows that the database hands back: telling the
//! rows that were read from those that failed, and laying the entries out
//! by the day they were written on.

use vstd::prelude::*;
use vstd::string::StringExecFns;
use crate::message::{Message, MessageText};
use crate::post::EchoPost;
use crate::text::{decimal, decimal_text};

verus! {

/// Why a query gave no usable answer.
#[derive(Debug)]
pub enum DbError {
    /// Some rows could not be read. Holds what went wrong with each of
    /// them, in the order of the rows.
    Rows(Vec<String>),
    /// The query for one entry did not give exactly one row. Holds the
    /// position that was asked for.
    NotFound(isize),
}

/// What went wrong with each row, the last row first.
pub open spec fn newest_first(reasons: Seq<String>) -> Seq<Seq<char>> {
    Seq::new(reasons.len(), |i: int| reasons[reasons.len() - 1 - i]@)
}

impl DbError {
    /// What the user is told of this failure. For rows that could not be
    /// read: what went wrong with each, the last row first, and then how
    /// many they are.
    pub open spec fn message_text(self) -> MessageText {
        match self {
            DbError::Rows(reasons) => MessageText {
                summary: "Failed to fetch latest posts"@,
                reasons: newest_first(reasons@).push(
                    "Experienced an error in "@ + decimal_text(reasons@.len() as int) + " posts"@,
                ),
                subtleties: Seq::empty(),
            },
            DbError::NotFound(id) => MessageText::simple(
                "Failed to find post #"@ + decimal_text(id as int),
            ),
        }
    }

    /// Writes what the user is told of this failure.
    pub fn message(&self) -> (m: Message)
        ensures
            m@ == self.message_text(),
    {
        match self {
            DbError::Rows(reasons) => {
                let count = String::from_str("Experienced an error in ").concat(
                    decimal(reasons.len() as i128).as_str(),
                ).concat(" posts");
                let mut m = Message::simple("Failed to fetch latest posts");
                let n = reasons.len();
                let mut k: usize = 0;
                while k < n
                    invariant
                        k <= n,
                        n == reasons.len(),
                        m@.summary == "Failed to fetch latest posts"@,
                        m@.subtleties == Seq::<Seq<char>>::empty(),
                        m@.reasons == newest_first(reasons@).take(k as int),
                    decreases n - k,
                {
                    m.add_reason(reasons[n - 1 - k].clone());
                    assert(newest_first(reasons@).take(k + 1) =~= newest_first(reasons@).take(
                        k as int,
                    ).push(reasons@[n - 1 - k]@));
                    k += 1;
                }
                assert(newest_first(reasons@).take(n as int) =~= newest_first(reasons@));
                m.add_reason(count);
                m
            },
            DbError::NotFound(id) => {
                let summary = String::from_str("Failed to find post #").concat(
                    decimal(*id as i128).as_str(),
                );
                Message::simple(summary.as_str())
            },
        }
    }
}

/// One row of an answer: the entry, or what went wrong reading it.
pub type Row = Result<EchoPost, String>;

/// The entries among `rows`, in order.
pub open spec fn row_posts(rows: Seq<Row>) -> Seq<EchoPost>
    decreases rows.len(),
{
    if rows.len() == 0 {
        Seq::empty()
    } else {
        match rows.last() {
            Ok(post) => row_posts(rows.drop_last()).push(post),
            Err(_) => row_posts(rows.drop_last()),
        }
    }
}

/// The failures among `rows`, in order.
pub open spec fn row_errors(rows: Seq<Row>) -> Seq<String>
    decreases rows.len(),
{
    if rows.len() == 0 {
        Seq::empty()
    } else {
        match rows.last() {
            Ok(_) => row_errors(rows.drop_last()),
            Err(reason) => row_errors(rows.drop_last()).push(reason),
        }
    }
}

/// The query for the latest `num` entries, newest first.
pub fn latest_query(num: usize) -> (sql: String)
    ensures
        sql@ == "SELECT * FROM posts ORDER BY created DESC LIMIT "@ + decimal_text(num as int),
{
    let limit = decimal(num as i128);
    String::from_str("SELECT * FROM posts ORDER BY created DESC LIMIT ").concat(limit.as_str())
}

/// The query for the entry at position `id`, counting from zero at the
/// newest entry.
pub fn post_query(id: isize) -> (sql: String)
    ensures
        sql@ == "SELECT * FROM posts ORDER BY created DESC LIMIT 1 OFFSET "@ + decimal_text(
            id as int,
        ),
{
    let offset = decimal(id as i128);
    String::from_str("SELECT * FROM posts ORDER BY created DESC LIMIT 1 OFFSET ").concat(
        offset.as_str(),
    )
}

/// A copy of an entry.
pub fn copy_post(post: &EchoPost) -> (copy: EchoPost)
    ensures
        copy == *post,
{
    EchoPost { id: post.id, created: post.created, edited: post.edited, text: post.text.clone() }
}

/// The entries of an answer, if every row was read; else all that went
/// wrong, row by row.
pub fn collect_rows(rows: &Vec<Row>) -> (r: Result<Vec<EchoPost>, DbError>)
    ensures
        r is Ok <==> row_errors(rows@).len() == 0,
        r matches Ok(posts) ==> posts@ == row_posts(rows@),
        r matches Err(e) ==> e matches DbError::Rows(reasons) && reasons@ == row_errors(rows@),
{
    let mut posts: Vec<EchoPost> = Vec::new();
    let mut reasons: Vec<String> = Vec::new();
    let mut i: usize = 0;
    while i < rows.len()
        invariant
            i <= rows.len(),
            posts@ == row_posts(rows@.take(i as int)),
            reasons@ == row_errors(rows@.take(i as int)),
        decreases rows.len() - i,
    {
        proof {
            assert(rows@.take(i + 1).drop_last() =~= rows@.take(i as int));
            assert(rows@.take(i + 1).last() == rows@[i as int]);
        }
        match &rows[i] {
            Ok(post) => {
                posts.push(copy_post(post));
            },
            Err(reason) => {
                reasons.push(reason.clone());
            },
        }
        i += 1;
    }
    proof {
        assert(rows@.take(rows.len() as int) =~= rows@);
    }
    if reasons.len() > 0 {
        Err(DbError::Rows(reasons))
    } else {
        Ok(posts)
    }
}

/// The one entry of an answer to a query for the entry at position `id`.
/// Rows that could not be read come first among the failures; an answer
/// of no row, or of more than one, finds nothing.
pub fn get_post(rows: &Vec<Row>, id: isize) -> (r: Result<EchoPost, DbError>)
    ensures
        r is Ok <==> row_errors(rows@).len() == 0 && row_posts(rows@).len() == 1,
        r matches Ok(post) ==> post == row_posts(rows@)[0],
        r matches Err(e) ==> (if row_errors(rows@).len() > 0 {
            e matches DbError::Rows(reasons) && reasons@ == row_errors(rows@)
        } else {
            e == DbError::NotFound(id)
        }),
{
    match collect_rows(rows) {
        Err(e) => Err(e),
        Ok(posts) => {
            if posts.len() != 1 {
                Err(DbError::NotFound(id))
            } else {
                Ok(copy_post(&posts[0]))
            }
        },
    }
}

/// The groups as sequences of entries.
pub open spec fn groups_of(days: Seq<Vec<EchoPost>>) -> Seq<Seq<EchoPost>> {
    Seq::new(days.len(), |i: int| days[i]@)
}

/// All the entries of the groups, group after group.
pub open spec fn concat(groups: Seq<Seq<EchoPost>>) -> Seq<EchoPost>
    decreases groups.len(),
{
    if groups.len() == 0 {
        Seq::empty()
    } else {
        concat(groups.drop_last()) + groups.last()
    }
}

/// `posts` without the entries of day zero that it starts with. The
/// layout by days begins at the first entry of another day.
pub open spec fn after_epoch_prefix(posts: Seq<EchoPost>) -> Seq<EchoPost>
    decreases posts.len(),
{
    if posts.len() == 0 {
        Seq::empty()
    } else if after_epoch_prefix(posts.drop_last()).len() == 0 && posts.last().day() == 0 {
        Seq::empty()
    } else {
        after_epoch_prefix(posts.drop_last()).push(posts.last())
    }
}

/// What [`after_epoch_prefix`] leaves out is exactly the longest run of
/// entries of day zero at the start: the result is `posts` from the first
/// entry of another day on. Returns the position of that entry, or the
/// number of entries if there is none.
pub proof fn lemma_after_epoch_prefix_is_suffix(posts: Seq<EchoPost>) -> (k: int)
    ensures
        0 <= k <= posts.len(),
        forall|i: int| 0 <= i < k ==> (#[trigger] posts[i]).day() == 0,
        k < posts.len() ==> posts[k].day() != 0,
        after_epoch_prefix(posts) == posts.skip(k),
    decreases posts.len(),
{
    if posts.len() == 0 {
        assert(after_epoch_prefix(posts) =~= posts.skip(0));
        0
    } else {
        let front = posts.drop_last();
        let k = lemma_after_epoch_prefix_is_suffix(front);
        assert(forall|i: int| 0 <= i < front.len() ==> front[i] == posts[i]);
        if after_epoch_prefix(front).len() == 0 && posts.last().day() == 0 {
            assert(front.skip(k).len() == front.len() - k);
            assert(after_epoch_prefix(posts) =~= posts.skip(posts.len() as int));
            posts.len() as int
        } else {
            assert(after_epoch_prefix(posts) =~= posts.skip(k));
            k
        }
    }
}

/// Whether `groups` lays entries out by days: no group is empty, the
/// entries of a group share their day, and a group's day is not that of
/// the group before it.
pub open spec fn is_day_layout(groups: Seq<Seq<EchoPost>>) -> bool {
    &&& forall|g: int| 0 <= g < groups.len() ==> (#[trigger] groups[g]).len() > 0
    &&& forall|g: int, i: int|
        0 <= g < groups.len() && 0 <= i < groups[g].len() ==> (#[trigger] groups[g][i]).day()
            == groups[g][0].day()
    &&& forall|g: int|
        0 < g < groups.len() ==> (#[trigger] groups[g])[0].day() != groups[g - 1][0].day()
}

/// Lays entries out by the day they were written on, keeping their order:
/// each run of entries of one day forms a group. Entries of day zero at
/// the very start belong to no group and are left out. The two clauses
/// fix the result: see [`lemma_day_layout_is_unique`].
pub fn group_by_day(posts: &Vec<EchoPost>) -> (days: Vec<Vec<EchoPost>>)
    ensures
        is_day_layout(groups_of(days@)),
        concat(groups_of(days@)) == after_epoch_prefix(posts@),
{
    let mut days: Vec<Vec<EchoPost>> = Vec::new();
    let mut current_day: i64 = 0;
    let mut i: usize = 0;
    while i < posts.len()
        invariant
            i <= posts.len(),
            is_day_layout(groups_of(days@)),
            concat(groups_of(days@)) == after_epoch_prefix(posts@.take(i as int)),
            days@.len() == 0 ==> current_day == 0,
            days@.len() > 0 ==> current_day == days@.last()@[0].day(),
        decreases posts.len() - i,
    {
        let post = copy_post(&posts[i]);
        let day_created = post.day_created();
        let ghost before = groups_of(days@);
        proof {
            assert(posts@.take(i + 1).drop_last() =~= posts@.take(i as int));
            assert(posts@.take(i + 1).last() == posts@[i as int]);
            lemma_concat_empty_iff(before);
        }
        if day_created != current_day {
            days.push(Vec::new());
            current_day = day_created;
        }
        let n = days.len();
        if n > 0 {
            let ghost opened = groups_of(days@);
            days[n - 1].push(post);
            proof {
                let after = groups_of(days@);
                if opened.len() == before.len() {
                    assert(after =~= before.drop_last().push(before.last().push(post)));
                    assert(after.drop_last() =~= before.drop_last());
                    assert(concat(after) =~= concat(before).push(post));
                } else {
                    assert(after =~= before.push(seq![post]));
                    assert(after.drop_last() =~= before);
                    assert(concat(after) =~= concat(before).push(post));
                }
                assert(is_day_layout(after));
            }
        }
        i += 1;
    }
    proof {
        assert(posts@.take(posts.len() as int) =~= posts@);
    }
    days
}

/// The entries of an answer laid out by days, if every row was read; else
/// all that went wrong, row by row.
pub fn posts_by_day(rows: &Vec<Row>) -> (r: Result<Vec<Vec<EchoPost>>, DbError>)
    ensures
        r is Ok <==> row_errors(rows@).len() == 0,
        r matches Ok(days) ==> is_day_layout(groups_of(days@)) && concat(groups_of(days@))
            == after_epoch_prefix(row_posts(rows@)),
        r matches Err(e) ==> e matches DbError::Rows(reasons) && reasons@ == row_errors(rows@),
{
    match collect_rows(rows) {
        Ok(posts) => Ok(group_by_day(&posts)),
        Err(e) => Err(e),
    }
}

/// There is one way only to lay given entries out by days: two layouts of
/// the same entries are the same layout.
pub proof fn lemma_day_layout_is_unique(a: Seq<Seq<EchoPost>>, b: Seq<Seq<EchoPost>>)
    requires
        is_day_layout(a),
        is_day_layout(b),
        concat(a) == concat(b),
    ensures
        a == b,
    decreases a.len(),
{
    lemma_concat_empty_iff(a);
    lemma_concat_empty_iff(b);
    if a.len() == 0 {
        assert(a =~= b);
    } else {
        let all = concat(a);
        let a_front = a.drop_last();
        let b_front = b.drop_last();
        let a_last = a.last();
        let b_last = b.last();
        assert(all == concat(a_front) + a_last);
        assert(all == concat(b_front) + b_last);
        assert(is_day_layout(a_front));
        assert(is_day_layout(b_front));
        lemma_last_group_is_whole_run(a, b);
        lemma_last_group_is_whole_run(b, a);
        assert(a_last.len() == b_last.len());
        assert(concat(a_front).len() == concat(b_front).len());
        assert(a_last =~= b_last) by {
            assert forall|i: int| 0 <= i < a_last.len() implies a_last[i] == b_last[i] by {
                assert(all[concat(a_front).len() + i] == a_last[i]);
                assert(all[concat(b_front).len() + i] == b_last[i]);
            }
        }
        assert(concat(a_front) =~= concat(b_front)) by {
            assert forall|i: int| 0 <= i < concat(a_front).len() implies concat(a_front)[i]
                == concat(b_front)[i] by {
                assert(all[i] == concat(a_front)[i]);
                assert(all[i] == concat(b_front)[i]);
            }
        }
        lemma_day_layout_is_unique(a_front, b_front);
        assert(a =~= a_front.push(a_last));
        assert(b =~= b_front.push(b_last));
    }
}

/// The last group of a layout is no shorter than the last group of
/// another layout of the same entries: else the entry before it would
/// share its day, and so would the group before it.
proof fn lemma_last_group_is_whole_run(short: Seq<Seq<EchoPost>>, long: Seq<Seq<EchoPost>>)
    requires
        is_day_layout(short),
        is_day_layout(long),
        short.len() > 0,
        long.len() > 0,
        concat(short) == concat(long),
    ensures
        short.last().len() >= long.last().len(),
{
    if short.last().len() < long.last().len() {
        lemma_shorter_last_group_splits_a_day(short, long);
    }
}

/// Where the last group of one layout is shorter than that of another
/// layout of the same entries, the shorter one follows a group of its
/// own day.
proof fn lemma_shorter_last_group_splits_a_day(short: Seq<Seq<EchoPost>>, long: Seq<Seq<EchoPost>>)
    requires
        forall|g: int| 0 <= g < short.len() ==> (#[trigger] short[g]).len() > 0,
        forall|g: int, i: int|
            0 <= g < short.len() && 0 <= i < short[g].len() ==> (#[trigger] short[g][i]).day()
                == short[g][0].day(),
        is_day_layout(long),
        short.len() > 0,
        long.len() > 0,
        concat(short) == concat(long),
        short.last().len() < long.last().len(),
    ensures
        short.len() >= 2,
        short[short.len() - 1][0].day() == short[short.len() - 2][0].day(),
{
    let all = concat(short);
    let front = short.drop_last();
    let tail = short.last();
    let before = concat(front).len() - 1;
    assert(all == concat(front) + tail);
    assert(all == concat(long.drop_last()) + long.last());
    assert(all.len() == concat(front).len() + tail.len());
    assert(all.len() == concat(long.drop_last()).len() + long.last().len());
    assert(before >= 0);
    lemma_concat_empty_iff(front);
    assert(front.len() > 0);
    lemma_concat_ends_with_last_group(front);
    let previous = front.last();
    assert(previous == short[short.len() - 2]);
    // The entry just before the short group lies in the long group.
    let offset = before - concat(long.drop_last()).len();
    assert(0 <= offset < long.last().len());
    assert(all[before] == long.last()[offset]);
    assert(all[before] == previous.last());
    assert(all[before + 1] == tail[0]);
    assert(all[before + 1] == long.last()[offset + 1]);
    assert(long.last()[offset].day() == long.last()[0].day());
    assert(long.last()[offset + 1].day() == long.last()[0].day());
    assert(previous[previous.len() - 1].day() == previous[0].day());
}

/// The entries of groups of which none is empty end with the last entry
/// of the last group.
proof fn lemma_concat_ends_with_last_group(groups: Seq<Seq<EchoPost>>)
    requires
        groups.len() > 0,
        forall|g: int| 0 <= g < groups.len() ==> (#[trigger] groups[g]).len() > 0,
    ensures
        concat(groups).len() > 0,
        concat(groups).last() == groups.last().last(),
{
    assert(concat(groups) == concat(groups.drop_last()) + groups.last());
}

/// Groups that are never empty hold no entry at all only if there is no
/// group.
proof fn lemma_concat_empty_iff(groups: Seq<Seq<EchoPost>>)
    requires
        forall|g: int| 0 <= g < groups.len() ==> (#[trigger] groups[g]).len() > 0,
    ensures
        concat(groups).len() == 0 <==> groups.len() == 0,
{
}

} // verus!
