//! The repositories listed, the order they are shown in, and the launcher
//! item each is shown as.

use vstd::prelude::*;
use vstd::string::StringExecFns;

verus! {

/// An instant as the listing gives it: whole seconds since the Unix epoch,
/// which may be negative, and the nanoseconds beyond them. Instants are
/// ordered by their seconds, and by their nanoseconds within one second.
#[derive(Clone, Copy, Debug, PartialEq, Eq)]
pub struct Moment {
    pub secs: i64,
    pub nanos: u32,
}

/// One repository of a listing.
#[derive(Clone, Debug, PartialEq, Eq)]
pub struct Repository {
    pub owner: String,
    pub name: String,
    pub description: Option<String>,
    pub url: String,
    pub is_fork: bool,
    pub is_archived: bool,
    pub is_private: bool,
    /// When the repository was last pushed to.
    pub updated_at: Moment,
}

/// What the launcher shows for one result.
#[derive(Clone, Debug, PartialEq, Eq)]
pub struct Item {
    pub title: String,
    pub subtitle: Option<String>,
    pub arg: String,
}

/// The title of a repository: owner and name joined by a slash, followed by
/// a lock if the repository is private, and then by a folder if it is
/// archived.
pub open spec fn title_of(owner: Seq<char>, name: Seq<char>, is_private: bool, is_archived: bool) -> Seq<
    char,
> {
    owner + "/"@ + name + (if is_private {
        " \u{1F512}"@
    } else {
        Seq::empty()
    }) + (if is_archived {
        " \u{1F4C1}"@
    } else {
        Seq::empty()
    })
}

/// Whether `needle` occurs in `text` as a run of consecutive characters.
pub open spec fn occurs_in(needle: Seq<char>, text: Seq<char>) -> bool {
    exists|at: int|
        0 <= at && at + needle.len() <= text.len() && #[trigger] text.subrange(
            at,
            at + needle.len(),
        ) == needle
}

/// Calls `str::contains` with a string as the pattern. Trusted, as std
/// documents it: the result tells whether the pattern occurs in the text.
#[verifier::external_body]
fn contains(text: &str, needle: &str) -> (found: bool)
    ensures
        found == occurs_in(needle@, text@),
{
    text.contains(needle)
}

/// Whether `c` is white space: one of the characters U+0009 to U+000D,
/// U+0020, U+0085, U+00A0, U+1680, U+2000 to U+200A, U+2028, U+2029, U+202F,
/// U+205F and U+3000.
pub open spec fn is_white_space(c: char) -> bool {
    let n = c as u32;
    ||| 0x09 <= n <= 0x0D
    ||| n == 0x20
    ||| n == 0x85
    ||| n == 0xA0
    ||| n == 0x1680
    ||| 0x2000 <= n <= 0x200A
    ||| n == 0x2028
    ||| n == 0x2029
    ||| n == 0x202F
    ||| n == 0x205F
    ||| n == 0x3000
}

/// Whether `text` holds nothing but white space.
pub open spec fn is_blank(text: Seq<char>) -> bool {
    forall|k: int| 0 <= k < text.len() ==> is_white_space(#[trigger] text[k])
}

/// Whether `out` is `text` with its leading and trailing white space cut
/// off: a stretch of `text` with only white space before it and behind it,
/// that neither begins nor ends with white space.
pub open spec fn is_trim_of(out: Seq<char>, text: Seq<char>) -> bool {
    exists|i: int, j: int|
        {
            &&& 0 <= i <= j <= text.len()
            &&& out == #[trigger] text.subrange(i, j)
            &&& is_blank(text.take(i))
            &&& is_blank(text.skip(j))
            &&& out.len() > 0 ==> !is_white_space(out.first()) && !is_white_space(out.last())
        }
}

/// `text` without its leading white space.
pub open spec fn trimmed_start(text: Seq<char>) -> Seq<char>
    decreases text.len(),
{
    if text.len() > 0 && is_white_space(text.first()) {
        trimmed_start(text.drop_first())
    } else {
        text
    }
}

/// `text` without its trailing white space.
pub open spec fn trimmed_end(text: Seq<char>) -> Seq<char>
    decreases text.len(),
{
    if text.len() > 0 && is_white_space(text.last()) {
        trimmed_end(text.drop_last())
    } else {
        text
    }
}

/// `text` without its leading and trailing white space.
pub open spec fn trimmed(text: Seq<char>) -> Seq<char> {
    trimmed_end(trimmed_start(text))
}

/// `text` in lower case, as `str::to_lowercase` gives it.
pub uninterp spec fn lowercased(text: Seq<char>) -> Seq<char>;

/// Calls `str::trim`. Trusted, as std documents it: the result is the text
/// with its leading and trailing white space cut off, white space being the
/// characters of [`is_white_space`].
#[verifier::external_body]
fn trim(text: &str) -> (out: &str)
    ensures
        is_trim_of(out@, text@),
{
    text.trim()
}

/// Calls `str::to_lowercase`. Trusted: the result is a function of the text
/// alone, and the empty text stays empty.
#[verifier::external_body]
fn to_lowercase(text: &str) -> (out: String)
    ensures
        out@ == lowercased(text@),
        text@.len() == 0 ==> out@.len() == 0,
{
    text.to_lowercase()
}

/// Leading white space is cut off up to the first character that is none.
proof fn lemma_trimmed_start(text: Seq<char>, i: int)
    requires
        0 <= i <= text.len(),
        is_blank(text.take(i)),
        i < text.len() ==> !is_white_space(text[i]),
    ensures
        trimmed_start(text) == text.skip(i),
    decreases i,
{
    if i == 0 {
        assert(text.skip(0) =~= text);
    } else {
        assert(text.take(i)[0] == text[0]);
        let rest = text.drop_first();
        assert forall|k: int| 0 <= k < i - 1 implies is_white_space(
            #[trigger] rest.take(i - 1)[k],
        ) by {
            assert(rest.take(i - 1)[k] == text.take(i)[k + 1]);
        }
        lemma_trimmed_start(rest, i - 1);
        assert(rest.skip(i - 1) =~= text.skip(i));
    }
}

/// Trailing white space is cut off back to the last character that is none.
proof fn lemma_trimmed_end(text: Seq<char>, j: int)
    requires
        0 <= j <= text.len(),
        is_blank(text.skip(j)),
        j > 0 ==> !is_white_space(text[j - 1]),
    ensures
        trimmed_end(text) == text.take(j),
    decreases text.len() - j,
{
    if j == text.len() {
        assert(text.take(j) =~= text);
    } else {
        assert(text.skip(j)[text.len() - j - 1] == text.last());
        let rest = text.drop_last();
        assert forall|k: int| 0 <= k < rest.len() - j implies is_white_space(
            #[trigger] rest.skip(j)[k],
        ) by {
            assert(rest.skip(j)[k] == text.skip(j)[k]);
        }
        lemma_trimmed_end(rest, j);
        assert(rest.take(j) =~= text.take(j));
    }
}

/// There is one way only to cut the white space off both ends of a text:
/// whatever is a trim of `text` is [`trimmed`] of it.
pub proof fn trim_is_unique(out: Seq<char>, text: Seq<char>)
    requires
        is_trim_of(out, text),
    ensures
        out == trimmed(text),
{
    let (i, j) = choose|i: int, j: int|
        {
            &&& 0 <= i <= j <= text.len()
            &&& out == #[trigger] text.subrange(i, j)
            &&& is_blank(text.take(i))
            &&& is_blank(text.skip(j))
            &&& out.len() > 0 ==> !is_white_space(out.first()) && !is_white_space(out.last())
        };
    if i == j {
        assert forall|k: int| 0 <= k < text.len() implies is_white_space(
            #[trigger] text.take(text.len() as int)[k],
        ) by {
            if k < i {
                assert(text.take(i)[k] == text[k]);
            } else {
                assert(text.skip(j)[k - j] == text[k]);
            }
        }
        lemma_trimmed_start(text, text.len() as int);
        assert(text.skip(text.len() as int) =~= out);
    } else {
        assert(out.first() == text[i] && out.last() == text[j - 1]);
        lemma_trimmed_start(text, i);
        let tail = text.skip(i);
        assert forall|k: int| 0 <= k < tail.len() - (j - i) implies is_white_space(
            #[trigger] tail.skip(j - i)[k],
        ) by {
            assert(tail.skip(j - i)[k] == text.skip(j)[k]);
        }
        assert(tail[j - i - 1] == text[j - 1]);
        lemma_trimmed_end(tail, j - i);
        assert(tail.take(j - i) =~= out);
    }
}

/// A text of nothing but white space is trimmed to nothing.
pub proof fn blank_text_is_trimmed_to_nothing(text: Seq<char>)
    requires
        is_blank(text),
    ensures
        trimmed(text).len() == 0,
{
    assert(text.take(text.len() as int) =~= text);
    lemma_trimmed_start(text, text.len() as int);
}

/// The text that repositories are filtered by: the argument without its
/// leading and trailing white space and in lower case, or nothing where
/// there is no argument. A blank argument gives nothing too, so that it
/// filters nothing out.
pub fn filter_text(arg: Option<&str>) -> (text: String)
    ensures
        text@ == (match arg {
            Some(given) => lowercased(trimmed(given@)),
            None => Seq::empty(),
        }),
        arg is Some && is_blank(arg->0@) ==> text@.len() == 0,
{
    match arg {
        Some(given) => {
            let cut = trim(given);
            proof {
                trim_is_unique(cut@, given@);
                if is_blank(given@) {
                    blank_text_is_trimmed_to_nothing(given@);
                }
            }
            to_lowercase(cut)
        },
        None => String::new(),
    }
}

impl Repository {
    /// The place of the repository in a listing, as four numbers compared
    /// from left to right: repositories that are not archived come before
    /// archived ones, among those the ones that are not forks before forks,
    /// and among those the ones pushed to last come first.
    pub open spec fn rank(self) -> (int, int, int, int) {
        (
            if self.is_archived {
                1
            } else {
                0
            },
            if self.is_fork {
                1
            } else {
                0
            },
            -self.updated_at.secs,
            -self.updated_at.nanos,
        )
    }

    /// Whether this repository has its place after `other`, and not beside
    /// it.
    pub open spec fn ranks_after(self, other: Repository) -> bool {
        let a = self.rank();
        let b = other.rank();
        a.0 > b.0 || (a.0 == b.0 && (a.1 > b.1 || (a.1 == b.1 && (a.2 > b.2 || (a.2 == b.2 && a.3
            > b.3)))))
    }

    /// Whether the filter text occurs in the repository's name.
    pub open spec fn fits(self, text: Seq<char>) -> bool {
        occurs_in(text, self.name@)
    }

    /// The title of the repository.
    pub fn title(&self) -> (title: String)
        ensures
            title@ == title_of(self.owner@, self.name@, self.is_private, self.is_archived),
    {
        let mut title = self.owner.clone();
        title.append("/");
        title.append(self.name.as_str());
        if self.is_private {
            title.append(" \u{1F512}");
        }
        if self.is_archived {
            title.append(" \u{1F4C1}");
        }
        proof {
            assert(title@ =~= title_of(
                self.owner@,
                self.name@,
                self.is_private,
                self.is_archived,
            ));
        }
        title
    }

    /// The item shown for the repository: its title, its address as the
    /// argument, and its description, if it has one, as the subtitle.
    pub fn into_item(self) -> (item: Item)
        ensures
            item.title@ == title_of(self.owner@, self.name@, self.is_private, self.is_archived),
            item.arg == self.url,
            item.subtitle == self.description,
    {
        let title = self.title();
        Item { title, subtitle: self.description, arg: self.url }
    }

    /// Whether the filter text occurs in the repository's name.
    pub fn matches(&self, text: &str) -> (fits: bool)
        ensures
            fits == self.fits(text@),
    {
        contains(self.name.as_str(), text)
    }

    /// Whether this repository has its place after `other`, and not beside
    /// it.
    pub fn comes_after(&self, other: &Repository) -> (after: bool)
        ensures
            after == self.ranks_after(*other),
    {
        if self.is_archived != other.is_archived {
            self.is_archived
        } else if self.is_fork != other.is_fork {
            self.is_fork
        } else if self.updated_at.secs != other.updated_at.secs {
            self.updated_at.secs < other.updated_at.secs
        } else {
            self.updated_at.nanos < other.updated_at.nanos
        }
    }
}

} // verus!
