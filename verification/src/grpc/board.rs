//! `BoardList` translation: connected serial ports filtered by the device's USB
//! pnpid, mapped to the helper's [`ConnectionTarget`]. Backs the WS `listBoards`
//! request.
//!
//! arduino-cli exposes a port's USB ids as `properties["vid"]` / `["pid"]` (e.g.
//! `0x2341` / `0x0043`); the editor's `pnpid` entries are Windows PNP-style
//! strings (`USB\VID_2341&PID_0043`). The PNP id is rebuilt from vid/pid and
//! compared case-insensitively.

use vstd::prelude::*;
use crate::grpc::cli::{BoardListRequest, DetectedPort, DetectedPortView, Instance, Port, PortView, pair_view};
use crate::text::{chars_of, eq_ignore_ascii_case, owned, spec_eq_ignore_ascii_case, spec_to_uppercase, to_uppercase};
use crate::ws::protocol::{ConnectionTarget, TargetView, targets_view};

verus! {

/// Discovery window for a one-shot board enumeration (ms).
pub const BOARD_LIST_TIMEOUT_MS: i64 = 1000;

/// The one-shot `BoardList` request: a short discovery window, no FQBN filter,
/// and never the cloud API (offline-safe).
pub fn board_list_request(instance: Instance) -> (r: BoardListRequest)
    ensures
        r.instance == Some(instance),
        r.timeout == BOARD_LIST_TIMEOUT_MS,
        r.fqbn@.len() == 0,
        r.skip_cloud_api_for_board_detection,
{
    BoardListRequest {
        instance: Some(instance),
        timeout: BOARD_LIST_TIMEOUT_MS,
        fqbn: String::new(),
        skip_cloud_api_for_board_detection: true,
    }
}

/// The value of `key` in a property list, from the entry at `i` on.
pub open spec fn lookup_from(props: Seq<(Seq<char>, Seq<char>)>, key: Seq<char>, i: int) -> Option<Seq<char>>
    decreases props.len() - i,
{
    if i < 0 || i >= props.len() {
        None
    } else if props[i].0 == key {
        Some(props[i].1)
    } else {
        lookup_from(props, key, i + 1)
    }
}

/// The value of `key` in a property list.
pub open spec fn lookup(props: Seq<(Seq<char>, Seq<char>)>, key: Seq<char>) -> Option<Seq<char>> {
    lookup_from(props, key, 0)
}

/// Look up a port property.
pub fn property(props: &Vec<(String, String)>, key: &String) -> (r: Option<String>)
    ensures
        r matches Some(v) ==> lookup(props@.map_values(|p: (String, String)| pair_view(p)), key@) == Some(v@),
        r is None ==> lookup(props@.map_values(|p: (String, String)| pair_view(p)), key@) is None,
{
    let ghost pv = props@.map_values(|p: (String, String)| pair_view(p));
    let n = props.len();
    for i in 0..n
        invariant
            n == props@.len(),
            pv == props@.map_values(|p: (String, String)| pair_view(p)),
            lookup(pv, key@) == lookup_from(pv, key@, i as int),
    {
        if props[i].0 == *key {
            return Some(props[i].1.clone());
        }
    }
    None
}

/// The raw id with a leading `0x`/`0X` removed.
pub open spec fn strip_hex_prefix(s: Seq<char>) -> Seq<char> {
    if s.len() >= 2 && s[0] == '0' && (s[1] == 'x' || s[1] == 'X') {
        s.subrange(2, s.len() as int)
    } else {
        s
    }
}

/// A USB id in PNP form: the `0x`/`0X` prefix removed, then uppercased.
pub open spec fn normalized_hex_id(raw: Seq<char>) -> Seq<char> {
    spec_to_uppercase(strip_hex_prefix(raw))
}

/// Strip a leading `0x`/`0X` and uppercase, so `0x2341` -> `2341` to match the
/// PNP id form.
pub fn normalize_hex_id(raw: &String) -> (r: String)
    ensures
        r@ == normalized_hex_id(raw@),
{
    let cs = chars_of(raw.as_str());
    if cs.len() >= 2 && cs[0] == '0' && (cs[1] == 'x' || cs[1] == 'X') {
        let rest = raw.as_str().substring_char(2, cs.len());
        to_uppercase(rest)
    } else {
        to_uppercase(raw.as_str())
    }
}

/// The PNP id of a port, `USB\VID_xxxx&PID_xxxx`, when it has both a `vid` and a
/// `pid` property.
pub open spec fn spec_port_pnp_id(p: PortView) -> Option<Seq<char>> {
    match (lookup(p.properties, "vid"@), lookup(p.properties, "pid"@)) {
        (Some(vid), Some(pid)) => Some(
            "USB\\VID_"@ + normalized_hex_id(vid) + "&PID_"@ + normalized_hex_id(pid),
        ),
        _ => None,
    }
}

/// Reconstruct the Windows PNP id (`USB\VID_xxxx&PID_xxxx`) from a port's `vid`
/// and `pid` properties, or `None` if either is absent (e.g. a network port).
pub fn port_pnp_id(port: &Port) -> (r: Option<String>)
    ensures
        r matches Some(id) ==> spec_port_pnp_id(port@) == Some(id@),
        r is None ==> spec_port_pnp_id(port@) is None,
{
    let vid = match property(&port.properties, &owned("vid")) {
        Some(v) => v,
        None => return None,
    };
    let pid = match property(&port.properties, &owned("pid")) {
        Some(p) => p,
        None => return None,
    };
    let mut id = owned("USB\\VID_");
    id.append(normalize_hex_id(&vid).as_str());
    id.append("&PID_");
    id.append(normalize_hex_id(&pid).as_str());
    Some(id)
}

/// The label of a target: the first matched board's name when it is not empty,
/// else the port's own label when not empty, else the port's address.
pub open spec fn spec_port_label(d: DetectedPortView, p: PortView) -> Seq<char> {
    if d.board_names.len() > 0 && d.board_names[0].len() > 0 {
        d.board_names[0]
    } else if p.label.len() > 0 {
        p.label
    } else {
        p.address
    }
}

/// Human label for a target: the first matching board's name, else the port's
/// own label, else its address.
pub fn port_label(detected: &DetectedPort, port: &Port) -> (r: String)
    ensures
        r@ == spec_port_label(detected@, port@),
{
    if detected.matching_boards.len() > 0 && !detected.matching_boards[0].name.as_str().is_empty() {
        return detected.matching_boards[0].name.clone();
    }
    if !port.label.as_str().is_empty() {
        return port.label.clone();
    }
    port.address.clone()
}

/// Some entry of `pnpid` equals `id` up to ASCII case.
pub open spec fn is_wanted(pnpid: Seq<Seq<char>>, id: Seq<char>) -> bool {
    exists|i: int| 0 <= i < pnpid.len() && spec_eq_ignore_ascii_case(#[trigger] pnpid[i], id)
}

/// The target a detected port yields: present only for a port with a PNP id that
/// the editor asked for.
pub open spec fn target_of(d: DetectedPortView, pnpid: Seq<Seq<char>>) -> Option<TargetView> {
    match d.port {
        Some(p) => match spec_port_pnp_id(p) {
            Some(id) => if is_wanted(pnpid, id) {
                Some(TargetView { port: p.address, label: spec_port_label(d, p) })
            } else {
                None
            },
            None => None,
        },
        None => None,
    }
}

/// The targets of a list of detected ports, in port order.
pub open spec fn targets_of(ports: Seq<DetectedPortView>, pnpid: Seq<Seq<char>>) -> Seq<TargetView>
    decreases ports.len(),
{
    if ports.len() == 0 {
        Seq::empty()
    } else {
        targets_of(ports.drop_last(), pnpid) + match target_of(ports.last(), pnpid) {
            Some(t) => seq![t],
            None => Seq::empty(),
        }
    }
}

pub open spec fn ports_view(ports: Seq<DetectedPort>) -> Seq<DetectedPortView> {
    ports.map_values(|d: DetectedPort| d@)
}

pub open spec fn strings_view(v: Seq<String>) -> Seq<Seq<char>> {
    v.map_values(|s: String| s@)
}

/// Whether `id` matches an entry of `pnpid`, ignoring ASCII case.
fn wanted(pnpid: &[String], id: &String) -> (r: bool)
    ensures
        r == is_wanted(strings_view(pnpid@), id@),
{
    let n = pnpid.len();
    for i in 0..n
        invariant
            n == pnpid@.len(),
            forall|j: int| 0 <= j < i ==> !spec_eq_ignore_ascii_case(#[trigger] strings_view(pnpid@)[j], id@),
    {
        if eq_ignore_ascii_case(pnpid[i].as_str(), id.as_str()) {
            proof {
                assert(spec_eq_ignore_ascii_case(strings_view(pnpid@)[i as int], id@));
            }
            return true;
        }
    }
    false
}

/// The target of one detected port, if it is kept.
fn detected_port_target(detected: &DetectedPort, pnpid: &[String]) -> (r: Option<ConnectionTarget>)
    ensures
        r matches Some(t) ==> target_of(detected@, strings_view(pnpid@)) == Some(t@),
        r is None ==> target_of(detected@, strings_view(pnpid@)) is None,
{
    let port = match &detected.port {
        Some(p) => p,
        None => return None,
    };
    let id = match port_pnp_id(port) {
        Some(id) => id,
        None => return None,
    };
    if !wanted(pnpid, &id) {
        return None;
    }
    Some(ConnectionTarget { port: port.address.clone(), label: port_label(detected, port) })
}

/// Map detected ports to `ConnectionTarget`s, keeping only those whose USB pnpid
/// matches an entry in `pnpid` (ignoring ASCII case), in port order.
pub fn detected_ports_to_targets(ports: &[DetectedPort], pnpid: &[String]) -> (r: Vec<ConnectionTarget>)
    ensures
        targets_view(r@) == targets_of(ports_view(ports@), strings_view(pnpid@)),
{
    let mut out: Vec<ConnectionTarget> = Vec::new();
    let n = ports.len();
    for i in 0..n
        invariant
            n == ports@.len(),
            targets_view(out@) == targets_of(ports_view(ports@.take(i as int)), strings_view(pnpid@)),
    {
        let t = detected_port_target(&ports[i], pnpid);
        proof {
            assert(ports_view(ports@.take(i + 1)).drop_last() =~= ports_view(ports@.take(i as int)));
            assert(ports_view(ports@.take(i + 1)).last() == ports@[i as int]@);
        }
        match t {
            Some(t) => {
                out.push(t);
                proof {
                    assert(targets_view(out@) =~= targets_of(ports_view(ports@.take(i + 1)), strings_view(pnpid@)));
                }
            },
            None => {
                proof {
                    assert(targets_view(out@) =~= targets_of(ports_view(ports@.take(i + 1)), strings_view(pnpid@)));
                }
            },
        }
    }
    proof {
        assert(ports@.take(n as int) =~= ports@);
    }
    out
}

/// A detected port is a USB board: it has a port with a reconstructable PNP id.
pub open spec fn is_board_port(d: DetectedPortView) -> bool {
    match d.port {
        Some(p) => spec_port_pnp_id(p) is Some,
        None => false,
    }
}

/// The number of USB boards among detected ports.
pub open spec fn board_count(ports: Seq<DetectedPortView>) -> nat
    decreases ports.len(),
{
    if ports.len() == 0 {
        0
    } else {
        board_count(ports.drop_last()) + if is_board_port(ports.last()) { 1nat } else { 0nat }
    }
}

/// Count detected ports that look like USB boards (have a reconstructable USB
/// pnpid), so generic serial devices without one are not counted.
pub fn count_board_ports(ports: &[DetectedPort]) -> (r: usize)
    ensures
        r == board_count(ports_view(ports@)),
{
    let mut count: usize = 0;
    let n = ports.len();
    for i in 0..n
        invariant
            n == ports@.len(),
            count == board_count(ports_view(ports@.take(i as int))),
            count <= i,
    {
        proof {
            assert(ports_view(ports@.take(i + 1)).drop_last() =~= ports_view(ports@.take(i as int)));
        }
        let is_board = match &ports[i].port {
            Some(p) => port_pnp_id(p).is_some(),
            None => false,
        };
        if is_board {
            count = count + 1;
        }
    }
    proof {
        assert(ports@.take(n as int) =~= ports@);
    }
    count
}

/// An empty `pnpid` filter matches nothing: no port is ever returned.
pub proof fn lemma_empty_filter_matches_nothing(ports: Seq<DetectedPortView>)
    ensures
        targets_of(ports, Seq::empty()) == Seq::<TargetView>::empty(),
    decreases ports.len(),
{
    if ports.len() > 0 {
        lemma_empty_filter_matches_nothing(ports.drop_last());
        assert(targets_of(ports, Seq::empty()) =~= Seq::<TargetView>::empty());
    }
}

/// The filter ignores ASCII case: two `pnpid` lists whose entries agree up to
/// ASCII case keep exactly the same targets.
pub proof fn lemma_filter_ignores_ascii_case(
    ports: Seq<DetectedPortView>,
    pnpid_a: Seq<Seq<char>>,
    pnpid_b: Seq<Seq<char>>,
)
    requires
        pnpid_a.len() == pnpid_b.len(),
        forall|i: int| 0 <= i < pnpid_a.len() ==> spec_eq_ignore_ascii_case(#[trigger] pnpid_a[i], pnpid_b[i]),
    ensures
        targets_of(ports, pnpid_a) == targets_of(ports, pnpid_b),
    decreases ports.len(),
{
    if ports.len() > 0 {
        lemma_filter_ignores_ascii_case(ports.drop_last(), pnpid_a, pnpid_b);
        assert forall|id: Seq<char>| is_wanted(pnpid_a, id) == is_wanted(pnpid_b, id) by {
            if is_wanted(pnpid_a, id) {
                let i = choose|i: int| 0 <= i < pnpid_a.len() && spec_eq_ignore_ascii_case(#[trigger] pnpid_a[i], id);
                assert(spec_eq_ignore_ascii_case(pnpid_a[i], pnpid_b[i]));
                assert(spec_eq_ignore_ascii_case(pnpid_b[i], id));
            }
            if is_wanted(pnpid_b, id) {
                let i = choose|i: int| 0 <= i < pnpid_b.len() && spec_eq_ignore_ascii_case(#[trigger] pnpid_b[i], id);
                assert(spec_eq_ignore_ascii_case(pnpid_a[i], pnpid_b[i]));
                assert(spec_eq_ignore_ascii_case(pnpid_a[i], id));
            }
        }
        assert(target_of(ports.last(), pnpid_a) == target_of(ports.last(), pnpid_b));
    }
}

/// `idx` picks the entries of `a` out of `b`: `a[i] == b[idx[i]]`, at strictly
/// increasing positions.
pub open spec fn picks(a: Seq<TargetView>, b: Seq<TargetView>, idx: Seq<int>) -> bool {
    &&& idx.len() == a.len()
    &&& forall|i: int| 0 <= i < idx.len() ==> 0 <= #[trigger] idx[i] < b.len() && a[i] == b[idx[i]]
    &&& forall|i: int, j: int| 0 <= i < j < idx.len() ==> idx[i] < idx[j]
}

/// `a` is a subsequence of `b`: its entries occur in `b` in the same order.
pub open spec fn is_subsequence_of(a: Seq<TargetView>, b: Seq<TargetView>) -> bool {
    exists|idx: Seq<int>| picks(a, b, idx)
}

/// Every entry of `narrow` equals some entry of `wide` up to ASCII case.
pub open spec fn filter_within(narrow: Seq<Seq<char>>, wide: Seq<Seq<char>>) -> bool {
    forall|i: int|
        0 <= i < narrow.len() ==> exists|j: int|
            0 <= j < wide.len() && spec_eq_ignore_ascii_case(#[trigger] narrow[i], #[trigger] wide[j])
}

proof fn lemma_wanted_within(narrow: Seq<Seq<char>>, wide: Seq<Seq<char>>, id: Seq<char>)
    requires
        filter_within(narrow, wide),
        is_wanted(narrow, id),
    ensures
        is_wanted(wide, id),
{
    let i = choose|i: int| 0 <= i < narrow.len() && spec_eq_ignore_ascii_case(#[trigger] narrow[i], id);
    assert(0 <= i < narrow.len());
    let j = choose|j: int| 0 <= j < wide.len() && spec_eq_ignore_ascii_case(#[trigger] narrow[i], #[trigger] wide[j]);
    assert(spec_eq_ignore_ascii_case(wide[j], id));
}

proof fn lemma_narrower_filter_picks(ports: Seq<DetectedPortView>, narrow: Seq<Seq<char>>, wide: Seq<Seq<char>>) -> (idx: Seq<int>)
    requires
        filter_within(narrow, wide),
    ensures
        picks(targets_of(ports, narrow), targets_of(ports, wide), idx),
    decreases ports.len(),
{
    if ports.len() == 0 {
        Seq::empty()
    } else {
        let prev = lemma_narrower_filter_picks(ports.drop_last(), narrow, wide);
        let a0 = targets_of(ports.drop_last(), narrow);
        let b0 = targets_of(ports.drop_last(), wide);
        let d = ports.last();
        if let Some(p) = d.port {
            if let Some(id) = spec_port_pnp_id(p) {
                if is_wanted(narrow, id) {
                    lemma_wanted_within(narrow, wide, id);
                }
            }
        }
        match target_of(d, narrow) {
            Some(t) => {
                assert(target_of(d, wide) == Some(t));
                let a = targets_of(ports, narrow);
                let b = targets_of(ports, wide);
                assert(a == a0.push(t));
                assert(b == b0.push(t));
                let idx = prev.push(b0.len() as int);
                assert forall|i: int| 0 <= i < idx.len() implies 0 <= #[trigger] idx[i] < b.len() && a[i] == b[idx[i]] by {
                    if i < prev.len() {
                        assert(idx[i] == prev[i]);
                        assert(a[i] == a0[i]);
                        assert(b[prev[i]] == b0[prev[i]]);
                    }
                }
                idx
            },
            None => {
                let a = targets_of(ports, narrow);
                let b = targets_of(ports, wide);
                assert(a =~= a0);
                assert forall|i: int| 0 <= i < prev.len() implies 0 <= #[trigger] prev[i] < b.len() && a[i] == b[prev[i]] by {
                    assert(b[prev[i]] == b0[prev[i]]);
                }
                prev
            },
        }
    }
}

/// A narrower filter keeps a subsequence: when every entry of `narrow` equals
/// an entry of `wide` up to ASCII case, the targets kept for `narrow` are among
/// those kept for `wide`, in the same order.
pub proof fn lemma_narrower_filter_is_subsequence(
    ports: Seq<DetectedPortView>,
    narrow: Seq<Seq<char>>,
    wide: Seq<Seq<char>>,
)
    requires
        filter_within(narrow, wide),
    ensures
        is_subsequence_of(targets_of(ports, narrow), targets_of(ports, wide)),
{
    let idx = lemma_narrower_filter_picks(ports, narrow, wide);
    assert(picks(targets_of(ports, narrow), targets_of(ports, wide), idx));
}

/// A target's label is the first matching board's name when that name is not
/// empty; otherwise the port's own label when not empty; otherwise the port's
/// address.
pub proof fn lemma_label_is_first_board_then_port_label_then_address(d: DetectedPort, p: Port)
    ensures
        d.matching_boards.len() > 0 && d.matching_boards[0].name@.len() > 0 ==> spec_port_label(d@, p@)
            == d.matching_boards[0].name@,
        !(d.matching_boards.len() > 0 && d.matching_boards[0].name@.len() > 0) && p.label@.len() > 0
            ==> spec_port_label(d@, p@) == p.label@,
        !(d.matching_boards.len() > 0 && d.matching_boards[0].name@.len() > 0) && p.label@.len() == 0
            ==> spec_port_label(d@, p@) == p.address@,
{
    if d.matching_boards.len() > 0 {
        assert(d@.board_names[0] == d.matching_boards[0].name@);
    }
}

/// A kept port becomes a target at its own address, labelled by its first
/// matching board's name whenever that name is not empty.
pub proof fn lemma_target_names_first_board(d: DetectedPort, pnpid: Seq<Seq<char>>)
    ensures
        target_of(d@, pnpid) matches Some(t) ==> (d.port matches Some(p) && t.port == p.address@ && (
        d.matching_boards.len() > 0 && d.matching_boards[0].name@.len() > 0 ==> t.label
            == d.matching_boards[0].name@)),
{
    if let Some(p) = d.port {
        lemma_label_is_first_board_then_port_label_then_address(d, p);
    }
}

/// Every returned target is a USB board: `listBoards` never returns more
/// targets than the board count that the status window shows, whatever the
/// filter.
pub proof fn lemma_targets_never_exceed_board_count(ports: Seq<DetectedPortView>, pnpid: Seq<Seq<char>>)
    ensures
        targets_of(ports, pnpid).len() <= board_count(ports),
    decreases ports.len(),
{
    if ports.len() > 0 {
        lemma_targets_never_exceed_board_count(ports.drop_last(), pnpid);
    }
}

} // verus!
