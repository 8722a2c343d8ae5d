//! The status window's data: the snapshots painted into its page and the
//! script calls and page text that carry them. The window itself (a webview
//! opened from the tray) is run by the host.

use vstd::prelude::*;
use crate::text::{chars_of, owned, push_char};

verus! {

/// Snapshot of the helper's lifecycle for the status row. `state` is one of the
/// strings the page switches on: `"starting"`, `"running"` or `"failed"`.
#[derive(Debug, Clone)]
pub struct StatusView {
    pub state: &'static str,
    pub port: Option<u16>,
    pub message: Option<String>,
}

/// Health and board-count snapshot for the lower rows. The default (no boards,
/// not healthy) is the state before the first poll.
#[derive(Debug, Clone, Copy, Default, PartialEq, Eq, Structural)]
pub struct Telemetry {
    pub boards: usize,
    pub healthy: bool,
}

/// The telemetry a board-count probe yields: the count and a healthy daemon when
/// the probe answered; no boards and an unhealthy daemon when it failed.
pub fn telemetry_from<E>(probe: Result<usize, E>) -> (r: Telemetry)
    ensures
        match probe {
            Ok(n) => r == (Telemetry { boards: n, healthy: true }),
            Err(_) => r == (Telemetry { boards: 0, healthy: false }),
        },
{
    match probe {
        Ok(boards) => Telemetry { boards, healthy: true },
        Err(_) => Telemetry { boards: 0, healthy: false },
    }
}

/// The script that calls the page-global `fn_name` with a JSON payload:
/// `window.<fn_name>(<json>)`.
pub fn script_call(fn_name: &str, payload_json: &str) -> (r: String)
    ensures
        r@ == "window."@ + fn_name@ + "("@ + payload_json@ + ")"@,
{
    let mut s = owned("window.");
    s.append(fn_name);
    s.append("(");
    s.append(payload_json);
    s.append(")");
    s
}

/// `s` with every occurrence of the non-empty `from`, found scanning left to
/// right and not overlapping, replaced by `to` (as `str::replace` does).
pub open spec fn replace_all(s: Seq<char>, from: Seq<char>, to: Seq<char>) -> Seq<char>
    decreases s.len(),
{
    if s.len() == 0 || from.len() == 0 {
        s
    } else if from.len() <= s.len() && s.take(from.len() as int) == from {
        to + replace_all(s.skip(from.len() as int), from, to)
    } else {
        seq![s[0]] + replace_all(s.drop_first(), from, to)
    }
}

/// Whether `pat` occurs in `cs` at position `i`.
fn occurs_at(cs: &Vec<char>, pat: &Vec<char>, i: usize) -> (r: bool)
    requires
        i + pat@.len() <= cs@.len(),
    ensures
        r == (cs@.subrange(i as int, i + pat@.len()) == pat@),
{
    let m = pat.len();
    for k in 0..m
        invariant
            m == pat@.len(),
            i + m <= cs.len(),
            forall|j: int| 0 <= j < k ==> cs@[i + j] == pat@[j],
    {
        if cs[i + k] != pat[k] {
            proof {
                assert(cs@.subrange(i as int, i + m)[k as int] != pat@[k as int]);
            }
            return false;
        }
    }
    proof {
        assert(cs@.subrange(i as int, i + m) =~= pat@);
    }
    true
}

/// Replace every occurrence of the non-empty `from` in `s` by `to`.
fn replace(s: &str, from: &str, to: &str) -> (r: String)
    requires
        from@.len() > 0,
    ensures
        r@ == replace_all(s@, from@, to@),
{
    let cs = chars_of(s);
    let fs = chars_of(from);
    let n = cs.len();
    let m = fs.len();
    let mut out = String::new();
    let mut i: usize = 0;
    proof {
        assert(s@.skip(0) =~= s@);
    }
    while i < n
        invariant
            n == cs@.len(),
            m == fs@.len(),
            m > 0,
            cs@ == s@,
            fs@ == from@,
            i <= n,
            out@ + replace_all(s@.skip(i as int), from@, to@) == replace_all(s@, from@, to@),
        decreases n - i,
    {
        let ghost t = s@.skip(i as int);
        if m <= n - i && occurs_at(&cs, &fs, i) {
            proof {
                assert(t.take(m as int) =~= cs@.subrange(i as int, i + m));
                assert(t.skip(m as int) =~= s@.skip(i + m));
            }
            let ghost before = out@;
            out.append(to);
            i = i + m;
            proof {
                assert(out@ + replace_all(s@.skip(i as int), from@, to@) =~= before + replace_all(t, from@, to@));
            }
        } else {
            proof {
                if m <= n - i {
                    assert(t.take(m as int) =~= cs@.subrange(i as int, i + m));
                }
                assert(t.drop_first() =~= s@.skip(i + 1));
                assert(t[0] == cs@[i as int]);
            }
            let ghost before = out@;
            push_char(&mut out, cs[i]);
            i = i + 1;
            proof {
                assert(out@ + replace_all(s@.skip(i as int), from@, to@) =~= before + replace_all(t, from@, to@));
            }
        }
    }
    proof {
        assert(s@.skip(n as int) =~= Seq::<char>::empty());
        assert(out@ + Seq::<char>::empty() =~= out@);
    }
    out
}

/// Assemble the status page from its template: inline the brand glyph and the
/// initial status and telemetry JSON, so the window paints the current state
/// the moment it loads.
pub fn render_html(template: &str, glyph: &str, status_json: &str, telemetry_json: &str) -> (r: String)
    ensures
        r@ == replace_all(
            replace_all(replace_all(template@, "__GLYPH_SVG__"@, glyph@), "__INIT_STATUS__"@, status_json@),
            "__INIT_TELEMETRY__"@,
            telemetry_json@,
        ),
{
    proof {
        reveal_strlit("__GLYPH_SVG__");
        reveal_strlit("__INIT_STATUS__");
        reveal_strlit("__INIT_TELEMETRY__");
    }
    let a = replace(template, "__GLYPH_SVG__", glyph);
    let b = replace(a.as_str(), "__INIT_STATUS__", status_json);
    replace(b.as_str(), "__INIT_TELEMETRY__", telemetry_json)
}

} // verus!
