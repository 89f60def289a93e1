//! The command-line arguments of the terminal programs and their menu.

use vstd::prelude::*;
use crate::options::text_contains;

verus! {

/// The arguments that the terminal programs take.
#[derive(Debug, Clone)]
pub struct Args {
    /// Video or playlist URL; with it the program runs without questions.
    pub url: Option<String>,
    /// Download format, `best` unless given.
    pub format: String,
    /// Output directory, `./downloads` unless given.
    pub output_dir: String,
    /// Download the whole playlist.
    pub playlist: bool,
    /// Ask questions even when a URL is given.
    pub interactive: bool,
}

impl Args {
    /// Whether the program downloads the given URL without asking: a URL is
    /// given and questions are not forced.
    pub fn automation_mode(&self) -> (b: bool)
        ensures
            b == (self.url is Some && !self.interactive),
    {
        self.url.is_some() && !self.interactive
    }
}

/// The entries of the interactive menu, in the order shown.
#[derive(Debug, Clone, Copy, PartialEq, Eq, Structural)]
pub enum MenuChoice {
    DownloadVideo,
    DownloadAudio,
    DownloadPlaylist,
    ListFormats,
    ChangeDirectory,
    Exit,
}

/// The labels of the interactive menu, in the order shown.
pub open spec fn menu_label(c: MenuChoice) -> Seq<char> {
    match c {
        MenuChoice::DownloadVideo => "📥 Download a single video"@,
        MenuChoice::DownloadAudio => "🎵 Download audio only (MP3/M4A)"@,
        MenuChoice::DownloadPlaylist => "📜 Download a playlist"@,
        MenuChoice::ListFormats => "📊 List available formats (and choose one)"@,
        MenuChoice::ChangeDirectory => "📁 Change download directory"@,
        MenuChoice::Exit => "🚪 Exit"@,
    }
}

/// The entry at a position of the menu.
pub open spec fn menu_entry(index: int) -> MenuChoice {
    if index == 0 {
        MenuChoice::DownloadVideo
    } else if index == 1 {
        MenuChoice::DownloadAudio
    } else if index == 2 {
        MenuChoice::DownloadPlaylist
    } else if index == 3 {
        MenuChoice::ListFormats
    } else if index == 4 {
        MenuChoice::ChangeDirectory
    } else {
        MenuChoice::Exit
    }
}

impl MenuChoice {
    /// The labels of the menu, in the order shown.
    pub fn labels() -> (r: &'static [&'static str])
        ensures
            r@.len() == 6,
            forall|i: int| 0 <= i < 6 ==> (#[trigger] r@[i])@ == menu_label(menu_entry(i)),
    {
        &[
            "📥 Download a single video",
            "🎵 Download audio only (MP3/M4A)",
            "📜 Download a playlist",
            "📊 List available formats (and choose one)",
            "📁 Change download directory",
            "🚪 Exit",
        ]
    }

    /// The entry chosen at a position of the menu.
    pub fn from_index(index: usize) -> (c: Self)
        requires
            index < 6,
        ensures
            c == menu_entry(index as int),
    {
        match index {
            0 => MenuChoice::DownloadVideo,
            1 => MenuChoice::DownloadAudio,
            2 => MenuChoice::DownloadPlaylist,
            3 => MenuChoice::ListFormats,
            4 => MenuChoice::ChangeDirectory,
            _ => MenuChoice::Exit,
        }
    }
}

} // verus!

verus! {

/// The word that names the action of a menu entry.
pub open spec fn menu_keyword(c: MenuChoice) -> Seq<char> {
    match c {
        MenuChoice::DownloadVideo => "video"@,
        MenuChoice::DownloadAudio => "audio"@,
        MenuChoice::DownloadPlaylist => "playlist"@,
        MenuChoice::ListFormats => "formats"@,
        MenuChoice::ChangeDirectory => "directory"@,
        MenuChoice::Exit => "Exit"@,
    }
}

/// A position below forty-five is one of the first forty-five.
proof fn lemma_below_45(i: int)
    requires
        0 <= i < 45,
    ensures
        i == 0 || i == 1 || i == 2 || i == 3 || i == 4 || i == 5 || i == 6 || i == 7 || i == 8 || i == 9 || i == 10 || i == 11 || i == 12 || i == 13 || i == 14 || i == 15 || i == 16 || i == 17 || i == 18 || i == 19 || i == 20 || i == 21 || i == 22 || i == 23 || i == 24 || i == 25 || i == 26 || i == 27 || i == 28 || i == 29 || i == 30 || i == 31 || i == 32 || i == 33 || i == 34 || i == 35 || i == 36 || i == 37 || i == 38 || i == 39 || i == 40 || i == 41 || i == 42 || i == 43 || i == 44,
{
}

/// A text holds a needle found at a position.
proof fn lemma_found_at(hay: Seq<char>, needle: Seq<char>, k: int)
    requires
        0 <= k,
        k + needle.len() <= hay.len(),
        hay.subrange(k, k + needle.len()) == needle,
    ensures
        text_contains(hay, needle),
{
}

/// A text in which the first three characters of a needle never follow one
/// another does not hold the needle.
proof fn lemma_not_found(hay: Seq<char>, needle: Seq<char>)
    requires
        needle.len() >= 3,
        forall|k: int|
            0 <= k && k + 3 <= hay.len() ==> !(#[trigger] hay[k] == needle[0] && hay[k + 1] == needle[1] && hay[k
                + 2] == needle[2]),
    ensures
        !text_contains(hay, needle),
{
    if text_contains(hay, needle) {
        let k = choose|k: int|
            0 <= k && k + needle.len() <= hay.len() && #[trigger] hay.subrange(k, k + needle.len()) == needle;
        assert(hay.subrange(k, k + needle.len())[0] == hay[k]);
        assert(hay.subrange(k, k + needle.len())[1] == hay[k + 1]);
        assert(hay.subrange(k, k + needle.len())[2] == hay[k + 2]);
    }
}

/// The label of `DownloadVideo` holds its own word and none of the others.
proof fn lemma_label_words_downloadvideo()
    ensures
        text_contains(menu_label(MenuChoice::DownloadVideo), menu_keyword(MenuChoice::DownloadVideo)),
        !text_contains(menu_label(MenuChoice::DownloadVideo), menu_keyword(MenuChoice::DownloadAudio)),
        !text_contains(menu_label(MenuChoice::DownloadVideo), menu_keyword(MenuChoice::DownloadPlaylist)),
        !text_contains(menu_label(MenuChoice::DownloadVideo), menu_keyword(MenuChoice::ListFormats)),
        !text_contains(menu_label(MenuChoice::DownloadVideo), menu_keyword(MenuChoice::ChangeDirectory)),
        !text_contains(menu_label(MenuChoice::DownloadVideo), menu_keyword(MenuChoice::Exit)),
{
    reveal_strlit("📥 Download a single video");
    reveal_strlit("video");
    reveal_strlit("audio");
    reveal_strlit("playlist");
    reveal_strlit("formats");
    reveal_strlit("directory");
    reveal_strlit("Exit");
    let hay = menu_label(MenuChoice::DownloadVideo);
    assert(hay.len() == 25);
    assert(hay.subrange(20, 25) =~= "video"@);
    lemma_found_at(hay, "video"@, 20);
    assert forall|k: int| 0 <= k && k + 3 <= hay.len() implies !(#[trigger] hay[k] == "audio"@[0] && hay[k + 1]
        == "audio"@[1] && hay[k + 2] == "audio"@[2]) by {
        lemma_below_45(k);
    }
    lemma_not_found(hay, "audio"@);
    assert forall|k: int| 0 <= k && k + 3 <= hay.len() implies !(#[trigger] hay[k] == "playlist"@[0] && hay[k + 1]
        == "playlist"@[1] && hay[k + 2] == "playlist"@[2]) by {
        lemma_below_45(k);
    }
    lemma_not_found(hay, "playlist"@);
    assert forall|k: int| 0 <= k && k + 3 <= hay.len() implies !(#[trigger] hay[k] == "formats"@[0] && hay[k + 1]
        == "formats"@[1] && hay[k + 2] == "formats"@[2]) by {
        lemma_below_45(k);
    }
    lemma_not_found(hay, "formats"@);
    assert forall|k: int| 0 <= k && k + 3 <= hay.len() implies !(#[trigger] hay[k] == "directory"@[0] && hay[k + 1]
        == "directory"@[1] && hay[k + 2] == "directory"@[2]) by {
        lemma_below_45(k);
    }
    lemma_not_found(hay, "directory"@);
    assert forall|k: int| 0 <= k && k + 3 <= hay.len() implies !(#[trigger] hay[k] == "Exit"@[0] && hay[k + 1]
        == "Exit"@[1] && hay[k + 2] == "Exit"@[2]) by {
        lemma_below_45(k);
    }
    lemma_not_found(hay, "Exit"@);
}

/// The label of `DownloadAudio` holds its own word and none of the others.
proof fn lemma_label_words_downloadaudio()
    ensures
        !text_contains(menu_label(MenuChoice::DownloadAudio), menu_keyword(MenuChoice::DownloadVideo)),
        text_contains(menu_label(MenuChoice::DownloadAudio), menu_keyword(MenuChoice::DownloadAudio)),
        !text_contains(menu_label(MenuChoice::DownloadAudio), menu_keyword(MenuChoice::DownloadPlaylist)),
        !text_contains(menu_label(MenuChoice::DownloadAudio), menu_keyword(MenuChoice::ListFormats)),
        !text_contains(menu_label(MenuChoice::DownloadAudio), menu_keyword(MenuChoice::ChangeDirectory)),
        !text_contains(menu_label(MenuChoice::DownloadAudio), menu_keyword(MenuChoice::Exit)),
{
    reveal_strlit("🎵 Download audio only (MP3/M4A)");
    reveal_strlit("video");
    reveal_strlit("audio");
    reveal_strlit("playlist");
    reveal_strlit("formats");
    reveal_strlit("directory");
    reveal_strlit("Exit");
    let hay = menu_label(MenuChoice::DownloadAudio);
    assert(hay.len() == 31);
    assert forall|k: int| 0 <= k && k + 3 <= hay.len() implies !(#[trigger] hay[k] == "video"@[0] && hay[k + 1]
        == "video"@[1] && hay[k + 2] == "video"@[2]) by {
        lemma_below_45(k);
    }
    lemma_not_found(hay, "video"@);
    assert(hay.subrange(11, 16) =~= "audio"@);
    lemma_found_at(hay, "audio"@, 11);
    assert forall|k: int| 0 <= k && k + 3 <= hay.len() implies !(#[trigger] hay[k] == "playlist"@[0] && hay[k + 1]
        == "playlist"@[1] && hay[k + 2] == "playlist"@[2]) by {
        lemma_below_45(k);
    }
    lemma_not_found(hay, "playlist"@);
    assert forall|k: int| 0 <= k && k + 3 <= hay.len() implies !(#[trigger] hay[k] == "formats"@[0] && hay[k + 1]
        == "formats"@[1] && hay[k + 2] == "formats"@[2]) by {
        lemma_below_45(k);
    }
    lemma_not_found(hay, "formats"@);
    assert forall|k: int| 0 <= k && k + 3 <= hay.len() implies !(#[trigger] hay[k] == "directory"@[0] && hay[k + 1]
        == "directory"@[1] && hay[k + 2] == "directory"@[2]) by {
        lemma_below_45(k);
    }
    lemma_not_found(hay, "directory"@);
    assert forall|k: int| 0 <= k && k + 3 <= hay.len() implies !(#[trigger] hay[k] == "Exit"@[0] && hay[k + 1]
        == "Exit"@[1] && hay[k + 2] == "Exit"@[2]) by {
        lemma_below_45(k);
    }
    lemma_not_found(hay, "Exit"@);
}

/// The label of `DownloadPlaylist` holds its own word and none of the others.
proof fn lemma_label_words_downloadplaylist()
    ensures
        !text_contains(menu_label(MenuChoice::DownloadPlaylist), menu_keyword(MenuChoice::DownloadVideo)),
        !text_contains(menu_label(MenuChoice::DownloadPlaylist), menu_keyword(MenuChoice::DownloadAudio)),
        text_contains(menu_label(MenuChoice::DownloadPlaylist), menu_keyword(MenuChoice::DownloadPlaylist)),
        !text_contains(menu_label(MenuChoice::DownloadPlaylist), menu_keyword(MenuChoice::ListFormats)),
        !text_contains(menu_label(MenuChoice::DownloadPlaylist), menu_keyword(MenuChoice::ChangeDirectory)),
        !text_contains(menu_label(MenuChoice::DownloadPlaylist), menu_keyword(MenuChoice::Exit)),
{
    reveal_strlit("📜 Download a playlist");
    reveal_strlit("video");
    reveal_strlit("audio");
    reveal_strlit("playlist");
    reveal_strlit("formats");
    reveal_strlit("directory");
    reveal_strlit("Exit");
    let hay = menu_label(MenuChoice::DownloadPlaylist);
    assert(hay.len() == 21);
    assert forall|k: int| 0 <= k && k + 3 <= hay.len() implies !(#[trigger] hay[k] == "video"@[0] && hay[k + 1]
        == "video"@[1] && hay[k + 2] == "video"@[2]) by {
        lemma_below_45(k);
    }
    lemma_not_found(hay, "video"@);
    assert forall|k: int| 0 <= k && k + 3 <= hay.len() implies !(#[trigger] hay[k] == "audio"@[0] && hay[k + 1]
        == "audio"@[1] && hay[k + 2] == "audio"@[2]) by {
        lemma_below_45(k);
    }
    lemma_not_found(hay, "audio"@);
    assert(hay.subrange(13, 21) =~= "playlist"@);
    lemma_found_at(hay, "playlist"@, 13);
    assert forall|k: int| 0 <= k && k + 3 <= hay.len() implies !(#[trigger] hay[k] == "formats"@[0] && hay[k + 1]
        == "formats"@[1] && hay[k + 2] == "formats"@[2]) by {
        lemma_below_45(k);
    }
    lemma_not_found(hay, "formats"@);
    assert forall|k: int| 0 <= k && k + 3 <= hay.len() implies !(#[trigger] hay[k] == "directory"@[0] && hay[k + 1]
        == "directory"@[1] && hay[k + 2] == "directory"@[2]) by {
        lemma_below_45(k);
    }
    lemma_not_found(hay, "directory"@);
    assert forall|k: int| 0 <= k && k + 3 <= hay.len() implies !(#[trigger] hay[k] == "Exit"@[0] && hay[k + 1]
        == "Exit"@[1] && hay[k + 2] == "Exit"@[2]) by {
        lemma_below_45(k);
    }
    lemma_not_found(hay, "Exit"@);
}

/// The label of `ListFormats` holds its own word and none of the others.
proof fn lemma_label_words_listformats()
    ensures
        !text_contains(menu_label(MenuChoice::ListFormats), menu_keyword(MenuChoice::DownloadVideo)),
        !text_contains(menu_label(MenuChoice::ListFormats), menu_keyword(MenuChoice::DownloadAudio)),
        !text_contains(menu_label(MenuChoice::ListFormats), menu_keyword(MenuChoice::DownloadPlaylist)),
        text_contains(menu_label(MenuChoice::ListFormats), menu_keyword(MenuChoice::ListFormats)),
        !text_contains(menu_label(MenuChoice::ListFormats), menu_keyword(MenuChoice::ChangeDirectory)),
        !text_contains(menu_label(MenuChoice::ListFormats), menu_keyword(MenuChoice::Exit)),
{
    reveal_strlit("📊 List available formats (and choose one)");
    reveal_strlit("video");
    reveal_strlit("audio");
    reveal_strlit("playlist");
    reveal_strlit("formats");
    reveal_strlit("directory");
    reveal_strlit("Exit");
    let hay = menu_label(MenuChoice::ListFormats);
    assert(hay.len() == 41);
    assert forall|k: int| 0 <= k && k + 3 <= hay.len() implies !(#[trigger] hay[k] == "video"@[0] && hay[k + 1]
        == "video"@[1] && hay[k + 2] == "video"@[2]) by {
        lemma_below_45(k);
    }
    lemma_not_found(hay, "video"@);
    assert forall|k: int| 0 <= k && k + 3 <= hay.len() implies !(#[trigger] hay[k] == "audio"@[0] && hay[k + 1]
        == "audio"@[1] && hay[k + 2] == "audio"@[2]) by {
        lemma_below_45(k);
    }
    lemma_not_found(hay, "audio"@);
    assert forall|k: int| 0 <= k && k + 3 <= hay.len() implies !(#[trigger] hay[k] == "playlist"@[0] && hay[k + 1]
        == "playlist"@[1] && hay[k + 2] == "playlist"@[2]) by {
        lemma_below_45(k);
    }
    lemma_not_found(hay, "playlist"@);
    assert(hay.subrange(17, 24) =~= "formats"@);
    lemma_found_at(hay, "formats"@, 17);
    assert forall|k: int| 0 <= k && k + 3 <= hay.len() implies !(#[trigger] hay[k] == "directory"@[0] && hay[k + 1]
        == "directory"@[1] && hay[k + 2] == "directory"@[2]) by {
        lemma_below_45(k);
    }
    lemma_not_found(hay, "directory"@);
    assert forall|k: int| 0 <= k && k + 3 <= hay.len() implies !(#[trigger] hay[k] == "Exit"@[0] && hay[k + 1]
        == "Exit"@[1] && hay[k + 2] == "Exit"@[2]) by {
        lemma_below_45(k);
    }
    lemma_not_found(hay, "Exit"@);
}

/// The label of `ChangeDirectory` holds its own word and none of the others.
proof fn lemma_label_words_changedirectory()
    ensures
        !text_contains(menu_label(MenuChoice::ChangeDirectory), menu_keyword(MenuChoice::DownloadVideo)),
        !text_contains(menu_label(MenuChoice::ChangeDirectory), menu_keyword(MenuChoice::DownloadAudio)),
        !text_contains(menu_label(MenuChoice::ChangeDirectory), menu_keyword(MenuChoice::DownloadPlaylist)),
        !text_contains(menu_label(MenuChoice::ChangeDirectory), menu_keyword(MenuChoice::ListFormats)),
        text_contains(menu_label(MenuChoice::ChangeDirectory), menu_keyword(MenuChoice::ChangeDirectory)),
        !text_contains(menu_label(MenuChoice::ChangeDirectory), menu_keyword(MenuChoice::Exit)),
{
    reveal_strlit("📁 Change download directory");
    reveal_strlit("video");
    reveal_strlit("audio");
    reveal_strlit("playlist");
    reveal_strlit("formats");
    reveal_strlit("directory");
    reveal_strlit("Exit");
    let hay = menu_label(MenuChoice::ChangeDirectory);
    assert(hay.len() == 27);
    assert forall|k: int| 0 <= k && k + 3 <= hay.len() implies !(#[trigger] hay[k] == "video"@[0] && hay[k + 1]
        == "video"@[1] && hay[k + 2] == "video"@[2]) by {
        lemma_below_45(k);
    }
    lemma_not_found(hay, "video"@);
    assert forall|k: int| 0 <= k && k + 3 <= hay.len() implies !(#[trigger] hay[k] == "audio"@[0] && hay[k + 1]
        == "audio"@[1] && hay[k + 2] == "audio"@[2]) by {
        lemma_below_45(k);
    }
    lemma_not_found(hay, "audio"@);
    assert forall|k: int| 0 <= k && k + 3 <= hay.len() implies !(#[trigger] hay[k] == "playlist"@[0] && hay[k + 1]
        == "playlist"@[1] && hay[k + 2] == "playlist"@[2]) by {
        lemma_below_45(k);
    }
    lemma_not_found(hay, "playlist"@);
    assert forall|k: int| 0 <= k && k + 3 <= hay.len() implies !(#[trigger] hay[k] == "formats"@[0] && hay[k + 1]
        == "formats"@[1] && hay[k + 2] == "formats"@[2]) by {
        lemma_below_45(k);
    }
    lemma_not_found(hay, "formats"@);
    assert(hay.subrange(18, 27) =~= "directory"@);
    lemma_found_at(hay, "directory"@, 18);
    assert forall|k: int| 0 <= k && k + 3 <= hay.len() implies !(#[trigger] hay[k] == "Exit"@[0] && hay[k + 1]
        == "Exit"@[1] && hay[k + 2] == "Exit"@[2]) by {
        lemma_below_45(k);
    }
    lemma_not_found(hay, "Exit"@);
}

/// The label of `Exit` holds its own word and none of the others.
proof fn lemma_label_words_exit()
    ensures
        !text_contains(menu_label(MenuChoice::Exit), menu_keyword(MenuChoice::DownloadVideo)),
        !text_contains(menu_label(MenuChoice::Exit), menu_keyword(MenuChoice::DownloadAudio)),
        !text_contains(menu_label(MenuChoice::Exit), menu_keyword(MenuChoice::DownloadPlaylist)),
        !text_contains(menu_label(MenuChoice::Exit), menu_keyword(MenuChoice::ListFormats)),
        !text_contains(menu_label(MenuChoice::Exit), menu_keyword(MenuChoice::ChangeDirectory)),
        text_contains(menu_label(MenuChoice::Exit), menu_keyword(MenuChoice::Exit)),
{
    reveal_strlit("🚪 Exit");
    reveal_strlit("video");
    reveal_strlit("audio");
    reveal_strlit("playlist");
    reveal_strlit("formats");
    reveal_strlit("directory");
    reveal_strlit("Exit");
    let hay = menu_label(MenuChoice::Exit);
    assert(hay.len() == 6);
    assert forall|k: int| 0 <= k && k + 3 <= hay.len() implies !(#[trigger] hay[k] == "video"@[0] && hay[k + 1]
        == "video"@[1] && hay[k + 2] == "video"@[2]) by {
        lemma_below_45(k);
    }
    lemma_not_found(hay, "video"@);
    assert forall|k: int| 0 <= k && k + 3 <= hay.len() implies !(#[trigger] hay[k] == "audio"@[0] && hay[k + 1]
        == "audio"@[1] && hay[k + 2] == "audio"@[2]) by {
        lemma_below_45(k);
    }
    lemma_not_found(hay, "audio"@);
    assert forall|k: int| 0 <= k && k + 3 <= hay.len() implies !(#[trigger] hay[k] == "playlist"@[0] && hay[k + 1]
        == "playlist"@[1] && hay[k + 2] == "playlist"@[2]) by {
        lemma_below_45(k);
    }
    lemma_not_found(hay, "playlist"@);
    assert forall|k: int| 0 <= k && k + 3 <= hay.len() implies !(#[trigger] hay[k] == "formats"@[0] && hay[k + 1]
        == "formats"@[1] && hay[k + 2] == "formats"@[2]) by {
        lemma_below_45(k);
    }
    lemma_not_found(hay, "formats"@);
    assert forall|k: int| 0 <= k && k + 3 <= hay.len() implies !(#[trigger] hay[k] == "directory"@[0] && hay[k + 1]
        == "directory"@[1] && hay[k + 2] == "directory"@[2]) by {
        lemma_below_45(k);
    }
    lemma_not_found(hay, "directory"@);
    assert(hay.subrange(2, 6) =~= "Exit"@);
    lemma_found_at(hay, "Exit"@, 2);
}

/// Each label of the menu names the action chosen at its position: the label
/// shown at a position holds the word of the entry chosen there (video,
/// audio, playlist, formats, directory, Exit) and of no other entry.
pub proof fn lemma_menu_labels_name_actions(i: int, j: int)
    requires
        0 <= i < 6,
        0 <= j < 6,
    ensures
        text_contains(menu_label(menu_entry(i)), menu_keyword(menu_entry(j))) <==> i == j,
{
    lemma_label_words_downloadvideo();
    lemma_label_words_downloadaudio();
    lemma_label_words_downloadplaylist();
    lemma_label_words_listformats();
    lemma_label_words_changedirectory();
    lemma_label_words_exit();
}

} // verus!
