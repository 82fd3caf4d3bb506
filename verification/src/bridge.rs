//! The process-bridge message contract: how the status lines the external
//! bundler process prints on its standard output are classified, and the
//! summary lines the command prints back. Spawning the process and piping
//! its streams is the caller's job; this module only decides.
use crate::helpers::convert_bytes_chars;
use crate::text::{int_chars, push_char, spaces_spec, strs_view};
use vstd::prelude::*;
use vstd::string::*;

verus! {

/// A classified status line from the external process: a compilation
/// started, a build finished (with the text after the `done` token), or
/// something to ignore.
pub enum StatusMsg {
    Compile,
    Done(String),
    Other,
}

/// Whether `line` starts with `done`.
pub open spec fn is_done_line(line: Seq<char>) -> bool {
    line.len() >= 4 && line.take(4) == "done"@
}

/// The payload after a `done ` token: empty when the token stands alone.
pub open spec fn done_payload(line: Seq<char>) -> Seq<char> {
    if line.len() > 5 {
        line.skip(5)
    } else {
        Seq::empty()
    }
}

/// Classify one status line: exactly `compile` starts the loading
/// indicator, a line starting with `done` carries the completion payload,
/// anything else is ignored.
pub fn parse_status_line(line: &str) -> (r: StatusMsg)
    ensures
        line@ == "compile"@ ==> r is Compile,
        line@ != "compile"@ && is_done_line(line@) ==> (r matches StatusMsg::Done(p) && p@
            == done_payload(line@)),
        line@ != "compile"@ && !is_done_line(line@) ==> r is Other,
{
    let n = line.unicode_len();
    if crate::json::str_compare(line, "compile") == 0 {
        proof {
            crate::json::lemma_chars_lt_trichotomy(line@, "compile"@);
        }
        return StatusMsg::Compile;
    }
    if n >= 4 {
        let head = line.substring_char(0, 4);
        if crate::json::str_compare(head, "done") == 0 {
            proof {
                assert(head@ =~= line@.take(4));
            }
            if n > 5 {
                let payload = line.substring_char(5, n);
                proof {
                    assert(payload@ =~= line@.skip(5));
                }
                return StatusMsg::Done(payload.to_owned());
            }
            return StatusMsg::Done(String::new());
        }
    }
    proof {
        if is_done_line(line@) {
            assert(line@.take(4) == "done"@);
        }
    }
    StatusMsg::Other
}

/// A string padded with spaces on the right up to `width`.
pub open spec fn pad_right_spec(s: Seq<char>, width: nat) -> Seq<char> {
    if s.len() >= width {
        s
    } else {
        s + spaces_spec((width - s.len()) as nat)
    }
}

/// Pad a string with spaces on the right up to `width`.
#[verifier::loop_isolation(false)]
pub fn pad_right(s: &str, width: usize) -> (r: String)
    ensures
        r@ == pad_right_spec(s@, width as nat),
{
    let n = s.unicode_len();
    let mut out = s.to_owned();
    if n >= width {
        return out;
    }
    let mut i: usize = n;
    while i < width
        invariant
            n <= i <= width,
            out@ == s@ + spaces_spec((i - n) as nat),
        decreases width - i,
    {
        push_char(&mut out, ' ');
        i = i + 1;
        proof {
            assert(out@ =~= s@ + spaces_spec((i - n) as nat));
        }
    }
    proof {
        assert(out@ == pad_right_spec(s@, width as nat));
    }
    out
}

/// One line of the build summary table: the asset name padded to the
/// name column, one space, then its size shown in the largest reached
/// unit.
pub open spec fn asset_line(name: Seq<char>, size: nat) -> Seq<char> {
    pad_right_spec(name, 60) + seq![' '] + pad_right_spec(convert_bytes_chars(size), 10)
}

/// The build summary: a completion note, a blank line, the column
/// headings, a blank line, then one line per asset.
pub open spec fn build_done_lines_v(assets: Seq<(Seq<char>, nat)>) -> Seq<Seq<char>> {
    seq![
        "Application build completed!"@,
        Seq::<char>::empty(),
        pad_right_spec("File"@, 60) + seq![' '] + pad_right_spec("Size"@, 10),
        Seq::<char>::empty(),
    ] + Seq::new(
        assets.len(),
        |i: int|
            if 0 <= i < assets.len() {
                asset_line(assets[i].0, assets[i].1)
            } else {
                Seq::empty()
            },
    )
}

pub open spec fn assets_view(assets: Seq<(String, u64)>) -> Seq<(Seq<char>, nat)> {
    Seq::new(
        assets.len(),
        |i: int|
            if 0 <= i < assets.len() {
                (assets[i].0@, assets[i].1 as nat)
            } else {
                (Seq::empty(), 0)
            },
    )
}

/// The lines the build command prints when the external process reports
/// completion.
#[verifier::loop_isolation(false)]
pub fn build_done_lines(assets: &Vec<(String, u64)>) -> (r: Vec<String>)
    ensures
        strs_view(r@) == build_done_lines_v(assets_view(assets@)),
{
    let ghost av = assets_view(assets@);
    let ghost goal = build_done_lines_v(av);
    let mut out: Vec<String> = Vec::new();
    out.push("Application build completed!".to_owned());
    out.push(String::new());
    let mut headings = pad_right("File", 60);
    push_char(&mut headings, ' ');
    headings.append(pad_right("Size", 10).as_str());
    proof {
        assert(headings@ =~= pad_right_spec("File"@, 60) + seq![' '] + pad_right_spec(
            "Size"@,
            10,
        ));
    }
    out.push(headings);
    out.push(String::new());
    proof {
        assert(strs_view(out@) =~= goal.take(4));
    }
    let mut i: usize = 0;
    while i < assets.len()
        invariant
            i <= assets@.len(),
            out@.len() == 4 + i,
            strs_view(out@) == goal.take(4 + i as int),
        decreases assets@.len() - i,
    {
        let mut line = pad_right(assets[i].0.as_str(), 60);
        push_char(&mut line, ' ');
        let size = crate::helpers::convert_bytes(assets[i].1);
        line.append(pad_right(size.as_str(), 10).as_str());
        proof {
            assert(line@ =~= asset_line(av[i as int].0, av[i as int].1));
        }
        out.push(line);
        i = i + 1;
        proof {
            assert(goal[4 + i - 1] == asset_line(av[i - 1].0, av[i - 1].1));
            assert(strs_view(out@) =~= goal.take(4 + i as int));
        }
    }
    proof {
        assert(goal.take(goal.len() as int) =~= goal);
    }
    out
}

/// The address line of a served application.
pub open spec fn url_line(
    label: Seq<char>,
    protocol: Seq<char>,
    host: Seq<char>,
    port: int,
) -> Seq<char> {
    label + protocol + "://"@ + host + ":"@ + int_chars(port)
}

/// The lines the development command prints when the server is up: where
/// the app is reachable locally and on the network.
pub fn app_url_lines(protocol: &str, host: &str, local_ip: &str, port: i32) -> (r: Vec<String>)
    ensures
        strs_view(r@) == seq![
            "Your app running at:"@,
            url_line("Local:    "@, protocol@, host@, port as int),
            url_line("Network:  "@, protocol@, local_ip@, port as int),
        ],
{
    let mut out: Vec<String> = Vec::new();
    out.push("Your app running at:".to_owned());
    let mut local = String::from_str("Local:    ");
    local.append(protocol);
    local.append("://");
    local.append(host);
    local.append(":");
    crate::text::fmt_i64_into(&mut local, port as i64);
    proof {
        assert(local@ =~= url_line("Local:    "@, protocol@, host@, port as int));
    }
    out.push(local);
    let mut network = String::from_str("Network:  ");
    network.append(protocol);
    network.append("://");
    network.append(local_ip);
    network.append(":");
    crate::text::fmt_i64_into(&mut network, port as i64);
    proof {
        assert(network@ =~= url_line("Network:  "@, protocol@, local_ip@, port as int));
    }
    out.push(network);
    proof {
        assert(strs_view(out@) =~= seq![
            "Your app running at:"@,
            url_line("Local:    "@, protocol@, host@, port as int),
            url_line("Network:  "@, protocol@, local_ip@, port as int),
        ]);
    }
    out
}

} // verus!
