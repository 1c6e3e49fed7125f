use vstd::prelude::*;
use crate::text::{push_char, push_str};

verus! {

/// The directory for temporary files on Linux and macOS.
pub fn template_dir() -> (r: String)
    ensures
        r@ == "/tmp"@,
{
    "/tmp".to_owned()
}

/// The directory for temporary files: on Windows the system's own
/// temporary directory, `system_temp` (which the caller reads from the
/// environment); elsewhere `/tmp`.
pub fn template_dir_for(windows: bool, system_temp: &str) -> (r: String)
    ensures
        r@ == (if windows {
            system_temp@
        } else {
            "/tmp"@
        }),
{
    if windows {
        system_temp.to_owned()
    } else {
        template_dir()
    }
}

/// A path with `p` joined to it, as a path buffer joins on Unix: an
/// absolute `p` replaces the path; otherwise a `/` goes between them unless
/// the path is empty or already ends with one.
pub open spec fn join_one(acc: Seq<char>, p: Seq<char>) -> Seq<char> {
    if p.len() > 0 && p[0] == '/' {
        p
    } else if acc.len() == 0 || acc.last() == '/' {
        acc + p
    } else {
        acc.push('/') + p
    }
}

/// The paths joined one after the other, from the empty path.
pub open spec fn join_all(ps: Seq<Seq<char>>) -> Seq<char>
    decreases ps.len(),
{
    if ps.len() == 0 {
        Seq::empty()
    } else {
        join_one(join_all(ps.drop_last()), ps.last())
    }
}

fn join_into(acc: &mut String, p: &str)
    ensures
        final(acc)@ == join_one(old(acc)@, p@),
{
    let v = crate::text::chars_of(p);
    if v.len() > 0 && v[0] == '/' {
        *acc = p.to_owned();
    } else {
        let a = crate::text::chars_of(acc.as_str());
        if a.len() == 0 || a[a.len() - 1] == '/' {
            push_str(acc, p);
        } else {
            push_char(acc, '/');
            push_str(acc, p);
        }
    }
}

/// The paths joined one after the other; no path gives the
/// empty text.
pub fn join_paths(paths: &Vec<String>) -> (r: String)
    ensures
        r@ == join_all(paths@.map_values(|p: String| p@)),
{
    let ghost ps = paths@.map_values(|p: String| p@);
    let mut r = String::new();
    let mut i: usize = 0;
    assert(ps.take(0) =~= Seq::<Seq<char>>::empty());
    while i < paths.len()
        invariant
            ps == paths@.map_values(|p: String| p@),
            i <= paths@.len(),
            r@ == join_all(ps.take(i as int)),
        decreases paths@.len() - i,
    {
        assert(ps.take(i + 1).drop_last() =~= ps.take(i as int));
        join_into(&mut r, paths[i].as_str());
        i = i + 1;
    }
    assert(ps.take(i as int) =~= ps);
    r
}

/// The arguments that make `ffmpeg` turn `input` into 24 kHz mono signed
/// 16-bit PCM at `output`.
pub fn ffmpeg_convert_args(input: &str, output: &str) -> (r: Vec<String>)
    ensures
        r@.map_values(|a: String| a@) == seq![
            "-i"@,
            input@,
            "-f"@,
            "s16le"@,
            "-ar"@,
            "24000"@,
            "-ac"@,
            "1"@,
            output@
        ],
{
    let r = vec![
        "-i".to_owned(),
        input.to_owned(),
        "-f".to_owned(),
        "s16le".to_owned(),
        "-ar".to_owned(),
        "24000".to_owned(),
        "-ac".to_owned(),
        "1".to_owned(),
        output.to_owned(),
    ];
    assert(r@.map_values(|a: String| a@) =~= seq![
        "-i"@,
        input@,
        "-f"@,
        "s16le"@,
        "-ar"@,
        "24000"@,
        "-ac"@,
        "1"@,
        output@
    ]);
    r
}

/// The error for an `ffmpeg` run that exited with `code`; success is exit
/// code 0.
pub fn ffmpeg_exit_status(code: i32) -> (r: Result<(), String>)
    ensures
        code == 0 ==> r is Ok,
        code != 0 ==> (r matches Err(m) && m@ == "FFMPEG 未能成功运行 : EXIT CODE : "@
            + crate::text::decimal(code as int)),
{
    if code == 0 {
        Ok(())
    } else {
        Err(crate::text::concat(
            "FFMPEG 未能成功运行 : EXIT CODE : ",
            crate::text::i64_to_string(code as i64).as_str(),
        ))
    }
}

} // verus!
