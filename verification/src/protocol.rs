//! The message protocol between devices: message kinds, addresses, and the
//! rules by which file batches are named, laid out and placed on the clipboard.

use vstd::prelude::*;
use vstd::string::*;
use crate::state::{FileItemInfo, WsMessage};
use crate::text::{chars_of, decimal, has_char, push_all, push_decimal, push_str, string_of};
use crate::transfers::text_is;

verus! {

/// UDP port on which devices announce themselves.
pub const BROADCAST_PORT: u16 = 37020;

/// TCP port of the WebSocket server.
pub const WS_PORT: u16 = 37021;

/// Size of the pieces in which files are sent.
pub const CHUNK_SIZE: usize = 65536;

/// The kinds of message that a device handles.
#[derive(Clone, Copy, Debug, PartialEq, Eq, Structural)]
pub enum MessageKind {
    ClipboardText,
    ClipboardImage,
    FileStart,
    FileRequest,
    FileChunk,
    FileEnd,
    Unknown,
}

/// The kind of a message, by its type and content type.
pub open spec fn kind_of(msg_type: Seq<char>, content_type: Seq<char>) -> MessageKind {
    if msg_type == "clipboard"@ && content_type == "text"@ {
        MessageKind::ClipboardText
    } else if msg_type == "clipboard"@ && content_type == "image"@ {
        MessageKind::ClipboardImage
    } else if msg_type == "file-start"@ {
        MessageKind::FileStart
    } else if msg_type == "file-request"@ {
        MessageKind::FileRequest
    } else if msg_type == "file-chunk"@ {
        MessageKind::FileChunk
    } else if msg_type == "file-end"@ {
        MessageKind::FileEnd
    } else {
        MessageKind::Unknown
    }
}

/// The kind of a message: a clipboard text or image, or one of the four file
/// transfer messages; anything else is unknown.
pub fn classify(msg: &WsMessage) -> (k: MessageKind)
    ensures
        k == kind_of(msg.msg_type@, msg.content_type@),
{
    let t = &msg.msg_type;
    if text_is(t, "clipboard") && text_is(&msg.content_type, "text") {
        MessageKind::ClipboardText
    } else if text_is(t, "clipboard") && text_is(&msg.content_type, "image") {
        MessageKind::ClipboardImage
    } else if text_is(t, "file-start") {
        MessageKind::FileStart
    } else if text_is(t, "file-request") {
        MessageKind::FileRequest
    } else if text_is(t, "file-chunk") {
        MessageKind::FileChunk
    } else if text_is(t, "file-end") {
        MessageKind::FileEnd
    } else {
        MessageKind::Unknown
    }
}

/// Whether a message belongs to a file's content (a chunk or the end of a batch):
/// a connection that carried one does not stand for the device's presence.
pub fn is_file_content(msg: &WsMessage) -> (r: bool)
    ensures
        r == (msg.msg_type@ == "file-chunk"@ || msg.msg_type@ == "file-end"@),
{
    text_is(&msg.msg_type, "file-chunk") || text_is(&msg.msg_type, "file-end")
}

/// `host` followed by `:` and the decimal port.
pub open spec fn host_port(host: Seq<char>, port: nat) -> Seq<char> {
    host + ":"@ + decimal(port)
}

/// The text `host:port`.
pub fn format_host_port(host: &str, port: u64) -> (r: String)
    ensures
        r@ == host_port(host@, port as nat),
{
    let mut out: Vec<char> = Vec::new();
    push_str(&mut out, host);
    push_str(&mut out, ":");
    push_decimal(&mut out, port);
    string_of(&out)
}

/// The WebSocket URL of a device: `ws://ip:port`.
pub fn ws_address(ip: &str, port: u16) -> (r: String)
    ensures
        r@ == "ws://"@ + host_port(ip@, port as nat),
{
    let mut out: Vec<char> = Vec::new();
    push_str(&mut out, "ws://");
    let hp = format_host_port(ip, port as u64);
    push_str(&mut out, hp.as_str());
    string_of(&out)
}

/// The address for a request sent over a connection of its own: refused when the
/// sender's address or port is unknown.
pub fn fallback_address(ip: &String, port: u16) -> (r: Result<String, String>)
    ensures
        ip@.len() == 0 || port == 0 ==> (r matches Err(e) && e@ == "无法获取发送端地址信息"@),
        ip@.len() != 0 && port != 0 ==> (r matches Ok(a) && a@ == "ws://"@ + host_port(ip@, port as nat)),
{
    if ip.as_str().is_empty() || port == 0 {
        Err(String::from_str("无法获取发送端地址信息"))
    } else {
        Ok(ws_address(ip.as_str(), port))
    }
}

/// Whether a batch is a single file at the top level (its path holds no `/`).
pub open spec fn single_top_file(files: Seq<FileItemInfo>) -> bool {
    files.len() == 1 && !files[0].relative_path@.contains('/')
}

/// Whether a received batch is a single file at the top level; only then is a
/// placeholder put on the clipboard and the received file written there.
pub fn is_single_file(files: &Vec<FileItemInfo>) -> (r: bool)
    ensures
        r == single_top_file(files@),
{
    if files.len() != 1 {
        return false;
    }
    let cs = chars_of(files[0].relative_path.as_str());
    !has_char(&cs, '/')
}

/// The first `/`-separated component of a path (the whole path if it has no `/`).
pub open spec fn first_component(p: Seq<char>) -> Seq<char> {
    if p.contains('/') {
        p.subrange(0, choose|i: int| 0 <= i < p.len() && p[i] == '/' && forall|j: int| 0 <= j < i ==> p[j] != '/')
    } else {
        p
    }
}

/// The first `/`-separated component of a relative path.
pub fn top_component(p: &String) -> (r: String)
    ensures
        r@ == first_component(p@),
{
    let cs = chars_of(p.as_str());
    let mut j: usize = 0;
    while j < cs.len()
        invariant
            j <= cs@.len(),
            cs@ == p@,
            forall|k: int| 0 <= k < j ==> cs@[k] != '/',
        decreases cs@.len() - j,
    {
        if cs[j] == '/' {
            let ghost w = j as int;
            assert(0 <= w < p@.len() && p@[w] == '/' && forall|k: int| 0 <= k < w ==> p@[k] != '/');
            let ghost c = choose|i: int| 0 <= i < p@.len() && p@[i] == '/' && forall|k: int| 0 <= k < i ==> p@[k] != '/';
            assert(c == w) by {
                if c < w {
                    assert(p@[c] != '/');
                } else if c > w {
                    assert(p@[w] != '/');
                }
            }
            let mut out: Vec<char> = Vec::new();
            let mut k: usize = 0;
            while k < j
                invariant
                    k <= j,
                    j < cs@.len(),
                    out@ == cs@.subrange(0, k as int),
                decreases j - k,
            {
                out.push(cs[k]);
                k = k + 1;
                assert(out@ =~= cs@.subrange(0, k as int));
            }
            assert(p@.contains('/'));
            return string_of(&out);
        }
        j = j + 1;
    }
    assert(!p@.contains('/'));
    p.clone()
}

/// Whether a received batch is several files or a folder: then it is not written
/// to the clipboard, and its saved location is its top folder.
pub open spec fn multi_or_folder(files: Seq<FileItemInfo>) -> bool {
    files.len() > 1 || (files.len() >= 1 && files[0].relative_path@.contains('/'))
}

/// Whether a received batch is several files or a folder.
pub fn is_multi_or_folder(files: &Vec<FileItemInfo>) -> (r: bool)
    ensures
        r == multi_or_folder(files@),
{
    if files.len() > 1 {
        return true;
    }
    if files.len() == 0 {
        return false;
    }
    let cs = chars_of(files[0].relative_path.as_str());
    has_char(&cs, '/')
}

/// Where the history says a received batch was saved.
pub enum SavedLocation {
    /// The download directory itself.
    DownloadDir,
    /// The given component joined to the download directory (the batch's top folder).
    TopFolder(String),
    /// The first final path of the received files.
    FirstFile,
}

/// Where a received batch counts as saved: for several files or a folder, its top
/// folder (the download directory if that component is empty); for one file, the
/// file itself (or the download directory if it could not be placed).
pub fn saved_location(files: &Vec<FileItemInfo>, placed: usize) -> (r: SavedLocation)
    ensures
        multi_or_folder(files@) ==> ({
            let top = first_component(files@[0].relative_path@);
            if top.len() == 0 {
                r is DownloadDir
            } else {
                r matches SavedLocation::TopFolder(c) && c@ == top
            }
        }),
        !multi_or_folder(files@) ==> if placed > 0 {
            r is FirstFile
        } else {
            r is DownloadDir
        },
{
    if is_multi_or_folder(files) {
        let top = top_component(&files[0].relative_path);
        if top.as_str().is_empty() {
            SavedLocation::DownloadDir
        } else {
            SavedLocation::TopFolder(top)
        }
    } else if placed > 0 {
        SavedLocation::FirstFile
    } else {
        SavedLocation::DownloadDir
    }
}

/// Whether the received files are to be put on the clipboard: a single top-level
/// file that was placed.
pub fn writes_clipboard(files: &Vec<FileItemInfo>, placed: usize) -> (r: bool)
    ensures
        r == (!multi_or_folder(files@) && placed == 1),
{
    !is_multi_or_folder(files) && placed == 1
}

/// A relative path in the form of the platform: on Windows `/` becomes `\`.
pub fn platform_relative(p: &String, windows: bool) -> (r: String)
    ensures
        windows ==> r@ == crate::text::replace_char(p@, '/', '\\'),
        !windows ==> r@ == p@,
{
    if windows {
        let cs = chars_of(p.as_str());
        let rs = crate::text::replace_chars(&cs, '/', '\\');
        string_of(&rs)
    } else {
        p.clone()
    }
}

/// Whether a received file whose name is already taken in the download directory
/// is saved under a numbered name: only in a batch of one file (the files of a
/// larger batch or a folder replace what is there).
pub fn renames_taken_file(files: &Vec<FileItemInfo>) -> (r: bool)
    ensures
        r == (files@.len() == 1),
{
    files.len() == 1
}

/// The name tried for a file whose name is taken: `stem(i)ext`.
pub open spec fn numbered_name(stem: Seq<char>, i: nat, ext: Seq<char>) -> Seq<char> {
    stem + "("@ + decimal(i) + ")"@ + ext
}

/// The name tried for a file whose name is taken: the stem, the number in
/// brackets, and the extension (with its dot, or empty).
pub fn numbered_file_name(stem: &str, i: u64, ext: &str) -> (r: String)
    ensures
        r@ == numbered_name(stem@, i as nat, ext@),
{
    let mut out: Vec<char> = Vec::new();
    push_str(&mut out, stem);
    push_str(&mut out, "(");
    push_decimal(&mut out, i);
    push_str(&mut out, ")");
    push_str(&mut out, ext);
    string_of(&out)
}

/// How many numbered names are tried for a file whose name is taken (1 to 99).
pub const MAX_NUMBERED_NAMES: u64 = 100;

/// The least number whose numbered name is free, given for the numbers 1, 2, ... in
/// turn whether the name is taken (`taken[k]` is about number `k + 1`); `None`
/// where all are taken (the file then keeps its name).
pub fn first_free_number(taken: &Vec<bool>) -> (r: Option<u64>)
    requires
        taken@.len() < u64::MAX,
    ensures
        match r {
            Some(i) => 1 <= i <= taken@.len() && !taken@[i - 1] && forall|k: int| 0 <= k < i - 1 ==> taken@[k],
            None => forall|k: int| 0 <= k < taken@.len() ==> taken@[k],
        },
{
    let mut k: usize = 0;
    while k < taken.len()
        invariant
            k <= taken@.len(),
            taken@.len() < u64::MAX,
            forall|j: int| 0 <= j < k ==> taken@[j],
        decreases taken@.len() - k,
    {
        if !taken[k] {
            return Some(k as u64 + 1);
        }
        k = k + 1;
    }
    None
}

/// The extension as appended to a numbered name: a dot and the extension, or
/// nothing where the file has none.
pub fn dotted_extension(ext: Option<&str>) -> (r: String)
    ensures
        match ext {
            Some(e) => r@ == "."@ + e@,
            None => r@ == Seq::<char>::empty(),
        },
{
    match ext {
        Some(e) => {
            let mut out: Vec<char> = Vec::new();
            push_str(&mut out, ".");
            push_str(&mut out, e);
            string_of(&out)
        },
        None => String::new(),
    }
}

/// The name shown for a batch of `n` paths: `n个文件`.
pub fn several_files_name(n: u64) -> (r: String)
    ensures
        r@ == decimal(n as nat) + "个文件"@,
{
    let mut out: Vec<char> = Vec::new();
    push_decimal(&mut out, n);
    push_str(&mut out, "个文件");
    string_of(&out)
}

} // verus!
