//! The texts exchanged with the system's clipboard tools when the clipboard holds
//! files: the scripts that put file paths on it, and the reading of the paths
//! that the tools print.

use vstd::prelude::*;
use vstd::string::*;
use crate::text::{chars_of, push_all, push_str, string_of};

verus! {

/// Whether `c` is white space as `str::trim` understands it: the characters with
/// the Unicode `White_Space` property.
pub open spec fn white_space(c: char) -> bool {
    ||| c == '\t' || c == '\n' || c == '\u{0B}' || c == '\u{0C}' || c == '\r' || c == ' '
    ||| c == '\u{85}' || c == '\u{A0}' || c == '\u{1680}'
    ||| 0x2000 <= (c as int) && (c as int) <= 0x200A
    ||| c == '\u{2028}' || c == '\u{2029}' || c == '\u{202F}' || c == '\u{205F}' || c == '\u{3000}'
}

/// `s` without its leading white space.
pub open spec fn trim_start(s: Seq<char>) -> Seq<char>
    decreases s.len(),
{
    if s.len() > 0 && white_space(s[0]) {
        trim_start(s.drop_first())
    } else {
        s
    }
}

/// `s` without its trailing white space.
pub open spec fn trim_end(s: Seq<char>) -> Seq<char>
    decreases s.len(),
{
    if s.len() > 0 && white_space(s.last()) {
        trim_end(s.drop_last())
    } else {
        s
    }
}

/// `s` without leading and trailing white space, as `str::trim` returns it.
pub open spec fn trimmed(s: Seq<char>) -> Seq<char> {
    trim_end(trim_start(s))
}

fn is_white_space(c: char) -> (r: bool)
    ensures
        r == white_space(c),
{
    let n = c as u32;
    c == '\t' || c == '\n' || c == '\u{0B}' || c == '\u{0C}' || c == '\r' || c == ' ' || c == '\u{85}'
        || c == '\u{A0}' || c == '\u{1680}' || (0x2000 <= n && n <= 0x200A) || c == '\u{2028}'
        || c == '\u{2029}' || c == '\u{202F}' || c == '\u{205F}' || c == '\u{3000}'
}

/// The characters of `s` without leading and trailing white space.
pub fn trim_chars(s: &Vec<char>) -> (r: Vec<char>)
    ensures
        r@ == trimmed(s@),
{
    let mut k: usize = 0;
    assert(s@.skip(0) =~= s@);
    while k < s.len() && is_white_space(s[k])
        invariant
            k <= s@.len(),
            trim_start(s@) == trim_start(s@.skip(k as int)),
        decreases s@.len() - k,
    {
        assert(s@.skip(k as int)[0] == s@[k as int]);
        assert(s@.skip(k as int).drop_first() =~= s@.skip(k + 1));
        k = k + 1;
    }
    proof {
        if k < s@.len() {
            assert(s@.skip(k as int)[0] == s@[k as int]);
        } else {
            assert(s@.skip(k as int) =~= Seq::<char>::empty());
        }
        assert(trim_start(s@) == s@.skip(k as int));
        assert(s@.skip(k as int) =~= s@.subrange(k as int, s@.len() as int));
    }
    let mut e: usize = s.len();
    while e > k && is_white_space(s[e - 1])
        invariant
            k <= e <= s@.len(),
            trimmed(s@) == trim_end(s@.subrange(k as int, e as int)),
        decreases e,
    {
        let ghost sub = s@.subrange(k as int, e as int);
        assert(sub.last() == s@[e - 1]);
        assert(sub.drop_last() =~= s@.subrange(k as int, e - 1));
        e = e - 1;
    }
    proof {
        let sub = s@.subrange(k as int, e as int);
        if e > k {
            assert(sub.last() == s@[e - 1]);
        }
        assert(trim_end(sub) == sub);
    }
    let mut out: Vec<char> = Vec::new();
    let mut j: usize = k;
    while j < e
        invariant
            k <= j <= e,
            e <= s@.len(),
            out@ == s@.subrange(k as int, j as int),
        decreases e - j,
    {
        out.push(s[j]);
        j = j + 1;
        assert(out@ =~= s@.subrange(k as int, j as int));
    }
    out
}

/// The characters that stand for `c` inside a single-quoted JavaScript string:
/// a backslash or a quote is preceded by a backslash.
pub open spec fn js_escape_char(c: char) -> Seq<char> {
    if c == '\\' {
        seq!['\\', '\\']
    } else if c == '\'' {
        seq!['\\', '\'']
    } else {
        seq![c]
    }
}

/// `s` escaped for a single-quoted JavaScript string.
pub open spec fn js_escape(s: Seq<char>) -> Seq<char>
    decreases s.len(),
{
    if s.len() == 0 {
        Seq::empty()
    } else {
        js_escape(s.drop_last()) + js_escape_char(s.last())
    }
}

/// `s` escaped for a single-quoted PowerShell string: each quote doubled.
pub open spec fn ps_escape(s: Seq<char>) -> Seq<char>
    decreases s.len(),
{
    if s.len() == 0 {
        Seq::empty()
    } else {
        ps_escape(s.drop_last()) + if s.last() == '\'' {
            seq!['\'', '\'']
        } else {
            seq![s.last()]
        }
    }
}

/// The paths as a JavaScript list body: each escaped and single-quoted, separated by commas.
pub open spec fn js_path_list(paths: Seq<String>) -> Seq<char>
    decreases paths.len(),
{
    if paths.len() == 0 {
        Seq::empty()
    } else if paths.len() == 1 {
        "'"@ + js_escape(paths[0]@) + "'"@
    } else {
        js_path_list(paths.drop_last()) + ","@ + "'"@ + js_escape(paths.last()@) + "'"@
    }
}

fn push_escaped(out: &mut Vec<char>, s: &str, powershell: bool)
    ensures
        powershell ==> final(out)@ == old(out)@ + ps_escape(s@),
        !powershell ==> final(out)@ == old(out)@ + js_escape(s@),
{
    let cs = chars_of(s);
    let ghost start = out@;
    let mut j: usize = 0;
    while j < cs.len()
        invariant
            j <= cs@.len(),
            cs@ == s@,
            powershell ==> out@ == start + ps_escape(cs@.take(j as int)),
            !powershell ==> out@ == start + js_escape(cs@.take(j as int)),
        decreases cs@.len() - j,
    {
        let c = cs[j];
        assert(cs@.take(j + 1).drop_last() =~= cs@.take(j as int));
        assert(cs@.take(j + 1).last() == c);
        if powershell {
            if c == '\'' {
                out.push('\'');
                out.push('\'');
            } else {
                out.push(c);
            }
        } else {
            if c == '\\' {
                out.push('\\');
                out.push('\\');
            } else if c == '\'' {
                out.push('\\');
                out.push('\'');
            } else {
                out.push(c);
            }
        }
        j = j + 1;
        proof {
            if powershell {
                assert(out@ =~= start + ps_escape(cs@.take(j as int)));
            } else {
                assert(out@ =~= start + js_escape(cs@.take(j as int)));
            }
        }
    }
    assert(cs@.take(cs@.len() as int) =~= cs@);
}

/// The JavaScript (for `osascript -l JavaScript`) that puts the given files on the
/// macOS pasteboard.
pub fn mac_set_files_script(paths: &Vec<String>) -> (r: String)
    ensures
        r@ == "ObjC.import('AppKit');var pb=$.NSPasteboard.generalPasteboard;pb.clearContents;var files=["@
            + js_path_list(paths@) + "];var urls=files.map(function(f){return $.NSURL.fileURLWithPath(f)});pb.writeObjects(urls)"@,
{
    let mut list: Vec<char> = Vec::new();
    let mut j: usize = 0;
    while j < paths.len()
        invariant
            j <= paths@.len(),
            list@ == js_path_list(paths@.take(j as int)),
        decreases paths@.len() - j,
    {
        assert(paths@.take(j + 1).drop_last() =~= paths@.take(j as int));
        assert(paths@.take(j + 1).last() == paths@[j as int]);
        if j > 0 {
            push_str(&mut list, ",");
        }
        push_str(&mut list, "'");
        push_escaped(&mut list, paths[j].as_str(), false);
        push_str(&mut list, "'");
        j = j + 1;
        proof {
            if j == 1 {
                assert(paths@.take(1)[0] == paths@[0]);
                assert(list@ =~= js_path_list(paths@.take(j as int)));
            } else {
                assert(list@ =~= js_path_list(paths@.take(j as int)));
            }
        }
    }
    assert(paths@.take(paths@.len() as int) =~= paths@);
    let mut out: Vec<char> = Vec::new();
    push_str(&mut out, "ObjC.import('AppKit');var pb=$.NSPasteboard.generalPasteboard;pb.clearContents;var files=[");
    push_all(&mut out, &list);
    push_str(&mut out, "];var urls=files.map(function(f){return $.NSURL.fileURLWithPath(f)});pb.writeObjects(urls)");
    string_of(&out)
}

/// The PowerShell command that puts the file `path` on the Windows clipboard.
pub fn windows_set_file_command(path: &str) -> (r: String)
    ensures
        r@ == "[Console]::OutputEncoding = [System.Text.Encoding]::UTF8; $OutputEncoding = [System.Text.Encoding]::UTF8; Set-Clipboard -Path '"@
            + ps_escape(path@) + "'"@,
{
    let mut out: Vec<char> = Vec::new();
    push_str(&mut out, "[Console]::OutputEncoding = [System.Text.Encoding]::UTF8; $OutputEncoding = [System.Text.Encoding]::UTF8; Set-Clipboard -Path '");
    push_escaped(&mut out, path, true);
    push_str(&mut out, "'");
    string_of(&out)
}

/// `p` without one trailing carriage return.
pub open spec fn strip_cr(p: Seq<char>) -> Seq<char> {
    if p.len() > 0 && p.last() == '\r' {
        p.drop_last()
    } else {
        p
    }
}

/// The lines of `s` after the partial line `cur`, as `str::lines` splits them: at
/// each `\n`, dropping one `\r` before it; a last line without `\n` counts only if
/// it is not empty.
pub open spec fn lines_from(s: Seq<char>, cur: Seq<char>) -> Seq<Seq<char>>
    decreases s.len(),
{
    if s.len() == 0 {
        if cur.len() == 0 {
            Seq::empty()
        } else {
            seq![cur]
        }
    } else if s[0] == '\n' {
        seq![strip_cr(cur)] + lines_from(s.drop_first(), Seq::empty())
    } else {
        lines_from(s.drop_first(), cur.push(s[0]))
    }
}

/// The lines of `s`.
pub open spec fn lines(s: Seq<char>) -> Seq<Seq<char>> {
    lines_from(s, Seq::empty())
}

/// The lines of `s`, each trimmed, without the empty ones.
pub open spec fn listed_paths(s: Seq<char>) -> Seq<Seq<char>> {
    lines(s).map_values(|l: Seq<char>| trimmed(l)).filter(|l: Seq<char>| l.len() != 0)
}

/// `s` without the byte-order marks at its start.
pub open spec fn strip_boms(s: Seq<char>) -> Seq<char>
    decreases s.len(),
{
    if s.len() > 0 && s[0] == '\u{FEFF}' {
        strip_boms(s.drop_first())
    } else {
        s
    }
}

fn split_lines(s: &Vec<char>) -> (r: Vec<Vec<char>>)
    ensures
        r@.map_values(|l: Vec<char>| l@) == lines(s@),
{
    let mut out: Vec<Vec<char>> = Vec::new();
    let mut cur: Vec<char> = Vec::new();
    let mut j: usize = 0;
    assert(s@.skip(0) =~= s@);
    assert(out@.map_values(|l: Vec<char>| l@) + lines_from(s@.skip(0), cur@) =~= lines(s@));
    while j < s.len()
        invariant
            j <= s@.len(),
            out@.map_values(|l: Vec<char>| l@) + lines_from(s@.skip(j as int), cur@) == lines(s@),
        decreases s@.len() - j,
    {
        let c = s[j];
        assert(s@.skip(j as int)[0] == c);
        assert(s@.skip(j as int).drop_first() =~= s@.skip(j + 1));
        if c == '\n' {
            let ghost before = out@.map_values(|l: Vec<char>| l@);
            let mut line = cur;
            if line.len() > 0 && line[line.len() - 1] == '\r' {
                line.pop();
            }
            let ghost lv = line@;
            out.push(line);
            cur = Vec::new();
            assert(out@.map_values(|l: Vec<char>| l@) =~= before.push(lv));
            assert(before + (seq![lv] + lines_from(s@.skip(j + 1), cur@)) =~= before.push(lv) + lines_from(s@.skip(j + 1), cur@));
        } else {
            cur.push(c);
        }
        j = j + 1;
    }
    assert(s@.skip(s@.len() as int) =~= Seq::<char>::empty());
    if cur.len() > 0 {
        let ghost before = out@.map_values(|l: Vec<char>| l@);
        let ghost cv = cur@;
        out.push(cur);
        assert(out@.map_values(|l: Vec<char>| l@) =~= before + seq![cv]);
    } else {
        assert(out@.map_values(|l: Vec<char>| l@) =~= out@.map_values(|l: Vec<char>| l@) + Seq::<Seq<char>>::empty());
    }
    out
}

fn strip_leading_boms(s: &Vec<char>) -> (r: Vec<char>)
    ensures
        r@ == strip_boms(s@),
{
    let mut k: usize = 0;
    assert(s@.skip(0) =~= s@);
    while k < s.len() && s[k] == '\u{FEFF}'
        invariant
            k <= s@.len(),
            strip_boms(s@) == strip_boms(s@.skip(k as int)),
        decreases s@.len() - k,
    {
        assert(s@.skip(k as int)[0] == '\u{FEFF}');
        assert(s@.skip(k as int).drop_first() =~= s@.skip(k + 1));
        k = k + 1;
    }
    let mut out: Vec<char> = Vec::new();
    let mut j: usize = k;
    while j < s.len()
        invariant
            k <= j <= s@.len(),
            out@ == s@.subrange(k as int, j as int),
        decreases s@.len() - j,
    {
        out.push(s[j]);
        j = j + 1;
        assert(out@ =~= s@.subrange(k as int, j as int));
    }
    assert(out@ =~= s@.skip(k as int));
    out
}

/// The file paths that a clipboard tool printed, one per line: the output without
/// leading byte-order marks (where `strip_bom`) is trimmed; `None` if nothing is
/// left; otherwise its lines, each trimmed, without empty ones, or `None` if there
/// are none.
pub fn parse_listed_paths(output: &str, strip_bom: bool) -> (r: Option<Vec<String>>)
    ensures
        ({
            let s1 = if strip_bom { strip_boms(output@) } else { output@ };
            let s2 = trimmed(s1);
            if s2.len() == 0 || listed_paths(s2).len() == 0 {
                r is None
            } else {
                r matches Some(v) && v@.map_values(|p: String| p@) == listed_paths(s2)
            }
        }),
{
    let cs = chars_of(output);
    let s1 = if strip_bom {
        strip_leading_boms(&cs)
    } else {
        cs
    };
    let c2 = trim_chars(&s1);
    if c2.len() == 0 {
        return None;
    }
    let ls = split_lines(&c2);
    let ghost lv = ls@.map_values(|l: Vec<char>| l@);
    let ghost tr = lv.map_values(|l: Seq<char>| trimmed(l));
    let ghost pred = |l: Seq<char>| l.len() != 0;
    let mut out: Vec<String> = Vec::new();
    let mut j: usize = 0;
    while j < ls.len()
        invariant
            j <= ls@.len(),
            lv == ls@.map_values(|l: Vec<char>| l@),
            tr == lv.map_values(|l: Seq<char>| trimmed(l)),
            pred == (|l: Seq<char>| l.len() != 0),
            out@.map_values(|p: String| p@) == tr.take(j as int).filter(pred),
        decreases ls@.len() - j,
    {
        reveal_with_fuel(Seq::<_>::filter, 1);
        assert(tr.take(j + 1).drop_last() =~= tr.take(j as int));
        let t = trim_chars(&ls[j]);
        assert(tr.take(j + 1).last() == t@);
        let ghost before = out@.map_values(|p: String| p@);
        if t.len() > 0 {
            let ts = string_of(&t);
            out.push(ts);
            assert(out@.map_values(|p: String| p@) =~= before.push(tr.take(j + 1).last()));
        }
        j = j + 1;
    }
    assert(tr.take(ls@.len() as int) =~= tr);
    if out.len() == 0 {
        None
    } else {
        Some(out)
    }
}

} // verus!
