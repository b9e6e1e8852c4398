//! The table from system image names (`star.fill`, `gearshape`, `xmark`) to icons.
use vstd::prelude::*;

verus! {

/// The icons that system image names map to.
#[derive(Clone, Copy, Debug, PartialEq, Eq, Structural)]
pub enum SystemIcon {
    Star,
    StarOff,
    Folder,
    FolderOpen,
    Settings,
    Heart,
    HeartOff,
    Bell,
    Search,
    Plus,
    Minus,
    Check,
    Close,
    Delete,
    File,
    Info,
    Globe,
    Sun,
    Moon,
    User,
    Eye,
    EyeOff,
    ArrowUp,
    ArrowDown,
    ArrowLeft,
    ArrowRight,
    ChevronUp,
    ChevronDown,
    ChevronLeft,
    ChevronRight,
    Calendar,
    ExternalLink,
    Copy,
    Ellipsis,
    Menu,
    Redo,
    Undo,
    TriangleAlert,
    ThumbsUp,
    ThumbsDown,
    Inbox,
    BookOpen,
}

/// The icon that a normalized name (lower case, `.fill` removed) stands for.
pub open spec fn icon_for_name(n: Seq<char>) -> Option<SystemIcon> {
    if n == "star"@ {
        Some(SystemIcon::Star)
    } else if n == "star.off"@ || n == "staroff"@ {
        Some(SystemIcon::StarOff)
    } else if n == "folder"@ {
        Some(SystemIcon::Folder)
    } else if n == "folder.open"@ || n == "folderopen"@ {
        Some(SystemIcon::FolderOpen)
    } else if n == "gear"@ || n == "gearshape"@ || n == "settings"@ {
        Some(SystemIcon::Settings)
    } else if n == "heart"@ {
        Some(SystemIcon::Heart)
    } else if n == "heart.off"@ || n == "heartoff"@ {
        Some(SystemIcon::HeartOff)
    } else if n == "bell"@ {
        Some(SystemIcon::Bell)
    } else if n == "magnifyingglass"@ || n == "search"@ {
        Some(SystemIcon::Search)
    } else if n == "plus"@ || n == "plus.circle"@ {
        Some(SystemIcon::Plus)
    } else if n == "minus"@ || n == "minus.circle"@ {
        Some(SystemIcon::Minus)
    } else if n == "checkmark"@ || n == "check"@ || n == "checkmark.circle"@ {
        Some(SystemIcon::Check)
    } else if n == "xmark"@ || n == "close"@ || n == "xmark.circle"@ {
        Some(SystemIcon::Close)
    } else if n == "trash"@ || n == "delete"@ {
        Some(SystemIcon::Delete)
    } else if n == "doc"@ || n == "file"@ || n == "doc.text"@ {
        Some(SystemIcon::File)
    } else if n == "info"@ || n == "info.circle"@ {
        Some(SystemIcon::Info)
    } else if n == "globe"@ {
        Some(SystemIcon::Globe)
    } else if n == "sun"@ || n == "sun.max"@ {
        Some(SystemIcon::Sun)
    } else if n == "moon"@ {
        Some(SystemIcon::Moon)
    } else if n == "person"@ || n == "person.circle"@ || n == "user"@ {
        Some(SystemIcon::User)
    } else if n == "eye"@ {
        Some(SystemIcon::Eye)
    } else if n == "eye.slash"@ || n == "eyeoff"@ {
        Some(SystemIcon::EyeOff)
    } else if n == "arrow.up"@ || n == "arrowup"@ {
        Some(SystemIcon::ArrowUp)
    } else if n == "arrow.down"@ || n == "arrowdown"@ {
        Some(SystemIcon::ArrowDown)
    } else if n == "arrow.left"@ || n == "arrowleft"@ {
        Some(SystemIcon::ArrowLeft)
    } else if n == "arrow.right"@ || n == "arrowright"@ {
        Some(SystemIcon::ArrowRight)
    } else if n == "chevron.up"@ || n == "chevronup"@ {
        Some(SystemIcon::ChevronUp)
    } else if n == "chevron.down"@ || n == "chevrondown"@ {
        Some(SystemIcon::ChevronDown)
    } else if n == "chevron.left"@ || n == "chevronleft"@ {
        Some(SystemIcon::ChevronLeft)
    } else if n == "chevron.right"@ || n == "chevronright"@ {
        Some(SystemIcon::ChevronRight)
    } else if n == "calendar"@ {
        Some(SystemIcon::Calendar)
    } else if n == "link"@ || n == "link.circle"@ {
        Some(SystemIcon::ExternalLink)
    } else if n == "doc.on.doc"@ || n == "copy"@ {
        Some(SystemIcon::Copy)
    } else if n == "ellipsis"@ || n == "ellipsis.circle"@ {
        Some(SystemIcon::Ellipsis)
    } else if n == "line.horizontal.3"@ || n == "menu"@ {
        Some(SystemIcon::Menu)
    } else if n == "square.and.arrow.up"@ || n == "redo"@ {
        Some(SystemIcon::Redo)
    } else if n == "square.and.arrow.down"@ || n == "undo"@ {
        Some(SystemIcon::Undo)
    } else if n == "exclamationmark.triangle"@ || n == "warning"@ {
        Some(SystemIcon::TriangleAlert)
    } else if n == "hand.thumbsup"@ || n == "thumbsup"@ {
        Some(SystemIcon::ThumbsUp)
    } else if n == "hand.thumbsdown"@ || n == "thumbsdown"@ {
        Some(SystemIcon::ThumbsDown)
    } else if n == "tray"@ || n == "inbox"@ {
        Some(SystemIcon::Inbox)
    } else if n == "book"@ || n == "book.closed"@ {
        Some(SystemIcon::BookOpen)
    } else {
        None
    }
}

/// `s` with every occurrence of `pat` removed, scanning from the left and
/// taking matches that do not overlap; an empty pattern removes nothing.
pub open spec fn remove_all(s: Seq<char>, pat: Seq<char>) -> Seq<char>
    decreases s.len(),
{
    if s.len() == 0 {
        s
    } else if 0 < pat.len() <= s.len() && s.subrange(0, pat.len() as int) == pat {
        remove_all(s.subrange(pat.len() as int, s.len() as int), pat)
    } else {
        seq![s[0]] + remove_all(s.subrange(1, s.len() as int), pat)
    }
}

/// The normal form of a lower-case name: `.fill` variants name the same icon.
pub open spec fn without_fill(s: Seq<char>) -> Seq<char> {
    remove_all(s, ".fill"@)
}

/// Removing the occurrences of a pattern that overlaps itself nowhere (no
/// proper prefix of it is also a suffix of it) removes a copy of the pattern
/// appended at the end, and treats the rest as before.
proof fn lemma_remove_all_appended(s: Seq<char>, pat: Seq<char>)
    requires
        pat.len() > 0,
        forall|k: int|
            0 < k < pat.len() ==> #[trigger] pat.subrange(k, pat.len() as int) != pat.subrange(
                0,
                pat.len() - k,
            ),
    ensures
        remove_all(s + pat, pat) == remove_all(s, pat),
    decreases s.len(),
{
    let p = pat.len() as int;
    let t = s + pat;
    if s.len() == 0 {
        assert(t =~= pat);
        assert(pat.subrange(0, p) =~= pat);
        assert(t.subrange(p, t.len() as int) =~= Seq::<char>::empty());
        assert(remove_all(t, pat) == remove_all(t.subrange(p, t.len() as int), pat));
    } else if s.len() >= p {
        assert(t.subrange(0, p) =~= s.subrange(0, p));
        if s.subrange(0, p) == pat {
            assert(t.subrange(p, t.len() as int) =~= s.subrange(p, s.len() as int) + pat);
            lemma_remove_all_appended(s.subrange(p, s.len() as int), pat);
            assert(remove_all(t, pat) == remove_all(t.subrange(p, t.len() as int), pat));
        } else {
            assert(t.subrange(1, t.len() as int) =~= s.subrange(1, s.len() as int) + pat);
            lemma_remove_all_appended(s.subrange(1, s.len() as int), pat);
            assert(t[0] == s[0]);
            assert(remove_all(t, pat) == seq![t[0]] + remove_all(
                t.subrange(1, t.len() as int),
                pat,
            ));
        }
    } else {
        let k = s.len() as int;
        if t.subrange(0, p) == pat {
            assert(pat.subrange(k, p) =~= t.subrange(k, p));
            assert(t.subrange(k, p) =~= pat.subrange(0, p - k));
            assert(false);
        }
        assert(t.subrange(1, t.len() as int) =~= s.subrange(1, s.len() as int) + pat);
        lemma_remove_all_appended(s.subrange(1, s.len() as int), pat);
        assert(t[0] == s[0]);
        assert(remove_all(t, pat) == seq![t[0]] + remove_all(t.subrange(1, t.len() as int), pat));
        assert(remove_all(s, pat) == seq![s[0]] + remove_all(s.subrange(1, s.len() as int), pat));
    }
}

/// A lower-case name and its `.fill` variant name the same icon.
pub proof fn lemma_fill_variant_same_icon(name: Seq<char>)
    ensures
        icon_for_name(without_fill(name + ".fill"@)) == icon_for_name(without_fill(name)),
{
    let pat = ".fill"@;
    reveal_strlit(".fill");
    assert forall|k: int| 0 < k < pat.len() implies #[trigger] pat.subrange(
        k,
        pat.len() as int,
    ) != pat.subrange(0, pat.len() - k) by {
        assert(pat.subrange(k, pat.len() as int)[0] != '.');
        assert(pat.subrange(0, pat.len() - k)[0] == '.');
    }
    lemma_remove_all_appended(name, pat);
}

/// What `str::to_lowercase` returns for a string of these characters.
pub uninterp spec fn lower_of(s: Seq<char>) -> Seq<char>;

/// Relies on `str::to_lowercase`: the lower-case mapping of each character,
/// which depends on the characters alone.
#[verifier::external_body]
fn to_lower(s: &str) -> (r: String)
    ensures
        r@ == lower_of(s@),
{
    s.to_lowercase()
}

/// Relies on `str::replace` with an empty replacement: every match of `pat`,
/// found from the left without overlaps, is dropped.
#[verifier::external_body]
fn strip_all(s: &str, pat: &str) -> (r: String)
    ensures
        r@ == remove_all(s@, pat@),
{
    s.replace(pat, "")
}

/// Whether two strings hold the same characters.
pub fn same_chars(a: &str, b: &str) -> (r: bool)
    ensures
        r == (a@ == b@),
{
    let n = a.unicode_len();
    if n != b.unicode_len() {
        return false;
    }
    let mut i: usize = 0;
    while i < n
        invariant
            n == a@.len(),
            n == b@.len(),
            i <= n,
            a@.subrange(0, i as int) == b@.subrange(0, i as int),
        decreases n - i,
    {
        if a.get_char(i) != b.get_char(i) {
            return false;
        }
        assert(a@.subrange(0, i + 1) == a@.subrange(0, i as int).push(a@[i as int]));
        assert(b@.subrange(0, i + 1) == b@.subrange(0, i as int).push(b@[i as int]));
        i = i + 1;
    }
    assert(a@ == a@.subrange(0, n as int));
    assert(b@ == b@.subrange(0, n as int));
    true
}

/// The icon that a normalized name stands for, if the table has it.
pub fn icon_for_normalized_name(name: &str) -> (r: Option<SystemIcon>)
    ensures
        r == icon_for_name(name@),
{
    if same_chars(name, "star") {
        Some(SystemIcon::Star)
    } else if same_chars(name, "star.off") || same_chars(name, "staroff") {
        Some(SystemIcon::StarOff)
    } else if same_chars(name, "folder") {
        Some(SystemIcon::Folder)
    } else if same_chars(name, "folder.open") || same_chars(name, "folderopen") {
        Some(SystemIcon::FolderOpen)
    } else if same_chars(name, "gear")
        || same_chars(name, "gearshape")
        || same_chars(name, "settings")
    {
        Some(SystemIcon::Settings)
    } else if same_chars(name, "heart") {
        Some(SystemIcon::Heart)
    } else if same_chars(name, "heart.off") || same_chars(name, "heartoff") {
        Some(SystemIcon::HeartOff)
    } else if same_chars(name, "bell") {
        Some(SystemIcon::Bell)
    } else if same_chars(name, "magnifyingglass") || same_chars(name, "search") {
        Some(SystemIcon::Search)
    } else if same_chars(name, "plus") || same_chars(name, "plus.circle") {
        Some(SystemIcon::Plus)
    } else if same_chars(name, "minus") || same_chars(name, "minus.circle") {
        Some(SystemIcon::Minus)
    } else if same_chars(name, "checkmark")
        || same_chars(name, "check")
        || same_chars(name, "checkmark.circle")
    {
        Some(SystemIcon::Check)
    } else if same_chars(name, "xmark")
        || same_chars(name, "close")
        || same_chars(name, "xmark.circle")
    {
        Some(SystemIcon::Close)
    } else if same_chars(name, "trash") || same_chars(name, "delete") {
        Some(SystemIcon::Delete)
    } else if same_chars(name, "doc") || same_chars(name, "file") || same_chars(name, "doc.text") {
        Some(SystemIcon::File)
    } else if same_chars(name, "info") || same_chars(name, "info.circle") {
        Some(SystemIcon::Info)
    } else if same_chars(name, "globe") {
        Some(SystemIcon::Globe)
    } else if same_chars(name, "sun") || same_chars(name, "sun.max") {
        Some(SystemIcon::Sun)
    } else if same_chars(name, "moon") {
        Some(SystemIcon::Moon)
    } else if same_chars(name, "person")
        || same_chars(name, "person.circle")
        || same_chars(name, "user")
    {
        Some(SystemIcon::User)
    } else if same_chars(name, "eye") {
        Some(SystemIcon::Eye)
    } else if same_chars(name, "eye.slash") || same_chars(name, "eyeoff") {
        Some(SystemIcon::EyeOff)
    } else if same_chars(name, "arrow.up") || same_chars(name, "arrowup") {
        Some(SystemIcon::ArrowUp)
    } else if same_chars(name, "arrow.down") || same_chars(name, "arrowdown") {
        Some(SystemIcon::ArrowDown)
    } else if same_chars(name, "arrow.left") || same_chars(name, "arrowleft") {
        Some(SystemIcon::ArrowLeft)
    } else if same_chars(name, "arrow.right") || same_chars(name, "arrowright") {
        Some(SystemIcon::ArrowRight)
    } else if same_chars(name, "chevron.up") || same_chars(name, "chevronup") {
        Some(SystemIcon::ChevronUp)
    } else if same_chars(name, "chevron.down") || same_chars(name, "chevrondown") {
        Some(SystemIcon::ChevronDown)
    } else if same_chars(name, "chevron.left") || same_chars(name, "chevronleft") {
        Some(SystemIcon::ChevronLeft)
    } else if same_chars(name, "chevron.right") || same_chars(name, "chevronright") {
        Some(SystemIcon::ChevronRight)
    } else if same_chars(name, "calendar") {
        Some(SystemIcon::Calendar)
    } else if same_chars(name, "link") || same_chars(name, "link.circle") {
        Some(SystemIcon::ExternalLink)
    } else if same_chars(name, "doc.on.doc") || same_chars(name, "copy") {
        Some(SystemIcon::Copy)
    } else if same_chars(name, "ellipsis") || same_chars(name, "ellipsis.circle") {
        Some(SystemIcon::Ellipsis)
    } else if same_chars(name, "line.horizontal.3") || same_chars(name, "menu") {
        Some(SystemIcon::Menu)
    } else if same_chars(name, "square.and.arrow.up") || same_chars(name, "redo") {
        Some(SystemIcon::Redo)
    } else if same_chars(name, "square.and.arrow.down") || same_chars(name, "undo") {
        Some(SystemIcon::Undo)
    } else if same_chars(name, "exclamationmark.triangle") || same_chars(name, "warning") {
        Some(SystemIcon::TriangleAlert)
    } else if same_chars(name, "hand.thumbsup") || same_chars(name, "thumbsup") {
        Some(SystemIcon::ThumbsUp)
    } else if same_chars(name, "hand.thumbsdown") || same_chars(name, "thumbsdown") {
        Some(SystemIcon::ThumbsDown)
    } else if same_chars(name, "tray") || same_chars(name, "inbox") {
        Some(SystemIcon::Inbox)
    } else if same_chars(name, "book") || same_chars(name, "book.closed") {
        Some(SystemIcon::BookOpen)
    } else {
        None
    }
}

/// The icon of a name that is already in lower case: `.fill` is removed
/// wherever it stands, then the table is consulted.
pub fn icon_for_lowercase_name(lower: &str) -> (r: Option<SystemIcon>)
    ensures
        r == icon_for_name(without_fill(lower@)),
{
    let normalized = strip_all(lower, ".fill");
    icon_for_normalized_name(normalized.as_str())
}

/// Maps a system image name to an icon: the name is taken in lower case,
/// `.fill` is removed from it, and the result is looked up in the table.
/// Names that the table lacks give `None`.
pub fn map_system_image_to_icon(name: &str) -> (r: Option<SystemIcon>)
    ensures
        r == icon_for_name(without_fill(lower_of(name@))),
{
    let lower = to_lower(name);
    icon_for_lowercase_name(lower.as_str())
}

} // verus!
