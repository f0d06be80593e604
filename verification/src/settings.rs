//! What the client is set up with: who is recorded and where transcripts go.

use crate::text::{chars_of, join, spec_join};
use vstd::prelude::*;
use vstd::string::*;

verus! {

/// The result of `str::to_lowercase` on a text.
pub uninterp spec fn spec_to_lowercase(text: Seq<char>) -> Seq<char>;

/// The result of `char::is_alphanumeric` on a character.
pub uninterp spec fn spec_is_alphanumeric(c: char) -> bool;

/// The result of `char::is_whitespace` on a character.
pub uninterp spec fn spec_is_whitespace(c: char) -> bool;

/// The lowercase form of `text`.
///
/// Calls `str::to_lowercase`, which follows Unicode's lowercase mapping and
/// depends on nothing but the text; the contract gives its result a name.
#[verifier::external_body]
fn lowercase(text: &str) -> (lower: String)
    ensures
        lower@ == spec_to_lowercase(text@),
{
    text.to_lowercase()
}

/// Whether `c` is a letter or a number.
///
/// Calls `char::is_alphanumeric`, which goes by Unicode's categories and
/// depends on nothing but the character; the contract gives its result a name.
#[verifier::external_body]
fn is_alphanumeric(c: char) -> (b: bool)
    ensures
        b == spec_is_alphanumeric(c),
{
    c.is_alphanumeric()
}

/// Whether `c` is white space.
///
/// Calls `char::is_whitespace`, which goes by Unicode's `White_Space`
/// property and depends on nothing but the character; the contract gives its
/// result a name.
#[verifier::external_body]
fn is_whitespace(c: char) -> (b: bool)
    ensures
        b == spec_is_whitespace(c),
{
    c.is_whitespace()
}

/// Appends `c` to `text`.
///
/// Calls `String::push`, which appends the character to the end.
#[verifier::external_body]
fn push_char(text: &mut String, c: char)
    ensures
        final(text)@ == old(text)@.push(c),
{
    text.push(c)
}

/// Whether a character of a name is kept for the identifier: letters,
/// numbers and the space.
pub open spec fn spec_kept(c: char) -> bool {
    spec_is_alphanumeric(c) || c == ' '
}

/// The words of `text`: its longest runs without white space, in order.
pub open spec fn spec_words(text: Seq<char>) -> Seq<Seq<char>>
    decreases text.len(),
{
    if text.len() == 0 {
        Seq::empty()
    } else {
        let before = spec_words(text.drop_last());
        if spec_is_whitespace(text.last()) {
            before
        } else if text.len() > 1 && !spec_is_whitespace(text[text.len() - 2]) && before.len() > 0 {
            before.drop_last().push(before.last().push(text.last()))
        } else {
            before.push(seq![text.last()])
        }
    }
}

/// The student identifier made from a name: the name in lowercase, without
/// what is neither letter, number nor space, its words joined by hyphens.
pub open spec fn spec_student_id(name: Seq<char>) -> Seq<char> {
    spec_join(spec_words(spec_to_lowercase(name).filter(|c: char| spec_kept(c))), "-"@)
}

/// A text that does not end in white space ends in a word, and that word is
/// not empty.
proof fn lemma_open_word(text: Seq<char>)
    requires
        text.len() > 0,
        !spec_is_whitespace(text.last()),
    ensures
        spec_words(text).len() > 0,
        spec_words(text).last().len() > 0,
    decreases text.len(),
{
    if text.len() > 1 && !spec_is_whitespace(text[text.len() - 2]) {
        assert(text.drop_last().last() == text[text.len() - 2]);
        lemma_open_word(text.drop_last());
    }
}

/// The student identifier made from a name.
pub fn student_id_from_name(name: &str) -> (id: String)
    ensures
        id@ == spec_student_id(name@),
{
    let lower = lowercase(name);
    let chars = chars_of(lower.as_str());
    let ghost keep = |c: char| spec_kept(c);
    let mut kept: Vec<char> = Vec::new();
    let mut i: usize = 0;
    proof {
        reveal(Seq::filter);
        assert(chars@.take(0) =~= Seq::<char>::empty());
    }
    while i < chars.len()
        invariant
            i <= chars.len(),
            keep == |c: char| spec_kept(c),
            kept@ == chars@.take(i as int).filter(keep),
        decreases chars.len() - i,
    {
        let c = chars[i];
        proof {
            reveal(Seq::filter);
            assert(chars@.take(i + 1).drop_last() =~= chars@.take(i as int));
            assert(chars@.take(i + 1).last() == c);
        }
        if is_alphanumeric(c) || c == ' ' {
            kept.push(c);
        }
        i += 1;
    }
    assert(chars@.take(chars.len() as int) =~= chars@);

    let mut words: Vec<String> = Vec::new();
    let mut word = String::new();
    let mut open = false;
    let mut k: usize = 0;
    proof {
        assert(kept@.take(0) =~= Seq::<char>::empty());
        assert(words.deep_view() =~= Seq::<Seq<char>>::empty());
    }
    while k < kept.len()
        invariant
            k <= kept.len(),
            open <==> k > 0 && !spec_is_whitespace(kept@[k - 1]),
            open ==> spec_words(kept@.take(k as int)) == words.deep_view().push(word@),
            !open ==> spec_words(kept@.take(k as int)) == words.deep_view() && word@.len() == 0,
        decreases kept.len() - k,
    {
        let c = kept[k];
        let ghost so_far = kept@.take(k as int);
        let ghost next = kept@.take(k + 1);
        let ghost closed = words.deep_view();
        proof {
            assert(next.drop_last() =~= so_far);
            assert(next.last() == c);
            if k > 0 {
                assert(next[next.len() - 2] == kept@[k - 1]);
                assert(so_far.last() == kept@[k - 1]);
            }
            if open {
                lemma_open_word(so_far);
                assert(closed.push(word@).drop_last() =~= closed);
            }
        }
        if is_whitespace(c) {
            if open {
                let done = word;
                word = String::new();
                words.push(done);
                assert(words.deep_view() =~= closed.push(done@));
                open = false;
            }
        } else {
            push_char(&mut word, c);
            proof {
                if !open {
                    assert(word@ =~= seq![c]);
                }
            }
            open = true;
        }
        k += 1;
    }
    assert(kept@.take(kept.len() as int) =~= kept@);
    if open {
        let ghost closed = words.deep_view();
        words.push(word);
        assert(words.deep_view() =~= closed.push(word@));
    }
    join(&words, "-")
}

/// The server's address where none is stored.
pub open spec fn spec_default_server_url() -> Seq<char> {
    "http://localhost:3000"@
}

/// A stored text, or the empty text where none is stored.
pub open spec fn spec_or_empty(stored: Option<String>) -> Seq<char> {
    match stored {
        Some(s) => s@,
        None => Seq::empty(),
    }
}

/// The server's address: the stored one, or the local default.
pub fn server_url_or_default(stored: Option<String>) -> (url: String)
    ensures
        url@ == match stored {
            Some(s) => s@,
            None => spec_default_server_url(),
        },
{
    match stored {
        Some(s) => s,
        None => String::from_str("http://localhost:3000"),
    }
}

/// The settings as the store holds them: each one may be missing.
#[derive(Debug)]
pub struct StoredSettings {
    pub student_id: Option<String>,
    pub student_name: Option<String>,
    pub teacher_name: Option<String>,
    pub server_url: Option<String>,
    pub setup_complete: Option<String>,
}

/// The settings as the user interface shows them.
#[derive(Debug)]
pub struct AppSettings {
    pub student_id: String,
    pub student_name: String,
    pub teacher_name: String,
    pub server_url: String,
    pub model_loaded: bool,
    pub setup_complete: bool,
}

fn or_empty(stored: Option<String>) -> (s: String)
    ensures
        s@ == spec_or_empty(stored),
{
    match stored {
        Some(s) => s,
        None => String::new(),
    }
}

impl AppSettings {
    /// The settings to show for what is stored: a missing name is empty, a
    /// missing address is the local default, and setup counts as complete
    /// only where the store says `true`.
    pub fn from_stored(stored: StoredSettings, model_loaded: bool) -> (shown: AppSettings)
        ensures
            shown.student_id@ == spec_or_empty(stored.student_id),
            shown.student_name@ == spec_or_empty(stored.student_name),
            shown.teacher_name@ == spec_or_empty(stored.teacher_name),
            shown.server_url@ == match stored.server_url {
                Some(s) => s@,
                None => spec_default_server_url(),
            },
            shown.model_loaded == model_loaded,
            shown.setup_complete == match stored.setup_complete {
                Some(v) => v@ == "true"@,
                None => false,
            },
    {
        let setup_complete = match &stored.setup_complete {
            Some(v) => *v == String::from_str("true"),
            None => false,
        };
        AppSettings {
            student_id: or_empty(stored.student_id),
            student_name: or_empty(stored.student_name),
            teacher_name: or_empty(stored.teacher_name),
            server_url: server_url_or_default(stored.server_url),
            model_loaded,
            setup_complete,
        }
    }
}

} // verus!
