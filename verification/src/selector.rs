//! Output selection: given the probed state of an opened device, choose
//! exactly one connector, one display mode and an ordered list of CRTC
//! candidates, or fail with the reason.
//!
//! The surrounding process probes the kernel for connectors, modes, encoders
//! and planes and hands the plain values in here; every choice below is a pure
//! decision over those values.

use vstd::prelude::*;

verus! {

/// One advertised display mode of a connector.
#[derive(Clone, Copy, PartialEq, Eq, Structural, Debug)]
pub struct ModeInfo {
    /// Horizontal resolution in pixels.
    pub width: u16,
    /// Vertical resolution in pixels.
    pub height: u16,
    /// Vertical refresh rate in hertz.
    pub vrefresh: u32,
    /// Whether the connector flags this mode as preferred.
    pub preferred: bool,
}

/// One CRTC an encoder can drive, with its hardware compositing capability.
#[derive(Clone, Copy, PartialEq, Eq, Structural, Debug)]
pub struct CrtcInfo {
    /// The kernel handle of the CRTC.
    pub handle: u32,
    /// How many overlay planes the CRTC offers beyond the primary plane.
    pub overlay_planes: usize,
}

/// One encoder reachable from a connector, with the CRTCs it can drive in
/// kernel enumeration order.
#[derive(Clone, Debug)]
pub struct EncoderInfo {
    pub crtcs: Vec<CrtcInfo>,
}

/// The probed state of one connector, in kernel enumeration order.
#[derive(Clone, Debug)]
pub struct ConnectorInfo {
    /// The kernel handle of the connector.
    pub handle: u32,
    /// Whether the link state is connected.
    pub connected: bool,
    /// The physical interface kind, as the kernel's numeric code.
    pub interface: u32,
    /// The per-interface index of the connector.
    pub interface_id: u32,
    /// The modes the connector advertises, in advertised order.
    pub modes: Vec<ModeInfo>,
    /// The encoders reachable from the connector, in enumeration order.
    pub encoders: Vec<EncoderInfo>,
    /// The physical size in millimetres, when the connector reports one.
    pub physical_size_mm: Option<(u32, u32)>,
}

/// Why output selection failed for a device.
#[derive(Clone, Copy, PartialEq, Eq, Structural, Debug)]
pub enum SelectError {
    /// No connector is both connected and of the configured interface kind.
    NoCompatibleDisplay,
    /// The chosen connector advertises no mode.
    NoUsableMode,
    /// No CRTC candidate accepted a scanout surface.
    NoUsableOutputPipeline,
}

/// A connector survives the filter when its link is connected and its
/// interface matches the configured target interface kind.
pub open spec fn connector_eligible(c: ConnectorInfo, target_interface: u32) -> bool {
    c.connected && c.interface == target_interface
}

/// Index `i` names the connector the selector picks: the last eligible one in
/// enumeration order.
pub open spec fn is_chosen_connector(cs: Seq<ConnectorInfo>, target_interface: u32, i: int) -> bool {
    &&& 0 <= i < cs.len()
    &&& connector_eligible(cs[i], target_interface)
    &&& forall|j: int| i < j < cs.len() ==> !connector_eligible(#[trigger] cs[j], target_interface)
}

/// Some advertised mode carries the preferred flag.
pub open spec fn has_preferred_mode(ms: Seq<ModeInfo>) -> bool {
    exists|i: int| 0 <= i < ms.len() && (#[trigger] ms[i]).preferred
}

/// Index `i` names the mode the selector picks: the first preferred mode with
/// the highest vertical refresh rate, or the first advertised mode when none
/// is flagged preferred.
pub open spec fn is_chosen_mode(ms: Seq<ModeInfo>, i: int) -> bool {
    &&& 0 <= i < ms.len()
    &&& if has_preferred_mode(ms) {
        &&& ms[i].preferred
        &&& forall|j: int| 0 <= j < ms.len() && (#[trigger] ms[j]).preferred
            ==> ms[j].vrefresh <= ms[i].vrefresh
        &&& forall|j: int| 0 <= j < i && (#[trigger] ms[j]).preferred
            ==> ms[j].vrefresh < ms[i].vrefresh
    } else {
        i == 0
    }
}

/// Where a CRTC lands when inserted into an already ordered list of CRTCs
/// that all come later in enumeration order: after every entry with strictly
/// more overlay planes, before the first with at most as many, so that ties
/// keep their enumeration order.
pub open spec fn insert_by_planes(c: CrtcInfo, s: Seq<CrtcInfo>) -> Seq<CrtcInfo>
    decreases s.len(),
{
    if s.len() == 0 {
        seq![c]
    } else if c.overlay_planes >= s[0].overlay_planes {
        seq![c] + s
    } else {
        seq![s[0]] + insert_by_planes(c, s.drop_first())
    }
}

/// The candidate order of one encoder's CRTCs: descending overlay-plane
/// count, ties kept in enumeration order (a stable insertion sort).
pub open spec fn order_by_planes(s: Seq<CrtcInfo>) -> Seq<CrtcInfo>
    decreases s.len(),
{
    if s.len() == 0 {
        Seq::empty()
    } else {
        insert_by_planes(s[0], order_by_planes(s.drop_first()))
    }
}

/// The full CRTC attempt order of a connector: each encoder's CRTCs ordered
/// by descending overlay-plane count, concatenated across encoders in
/// encoder enumeration order.
pub open spec fn crtc_attempt_order(encs: Seq<EncoderInfo>) -> Seq<CrtcInfo>
    decreases encs.len(),
{
    if encs.len() == 0 {
        Seq::empty()
    } else {
        order_by_planes(encs[0].crtcs@) + crtc_attempt_order(encs.drop_first())
    }
}

/// Connector selection is deterministic: at most one index can be the chosen
/// connector of a given connector list and target interface.
pub proof fn lemma_chosen_connector_unique(cs: Seq<ConnectorInfo>, target_interface: u32, i: int, j: int)
    requires
        is_chosen_connector(cs, target_interface, i),
        is_chosen_connector(cs, target_interface, j),
    ensures
        i == j,
{
}

/// Mode selection is deterministic: at most one index can be the chosen mode
/// of a given mode list, so the pick is reproducible across runs.
pub proof fn lemma_chosen_mode_unique(ms: Seq<ModeInfo>, i: int, j: int)
    requires
        is_chosen_mode(ms, i),
        is_chosen_mode(ms, j),
    ensures
        i == j,
{
}

/// Picks the connector to drive: the last one in enumeration order that is
/// connected and matches the target interface kind.
pub fn pick_connector(connectors: &Vec<ConnectorInfo>, target_interface: u32) -> (r: Option<usize>)
    ensures
        match r {
            Some(i) => is_chosen_connector(connectors@, target_interface, i as int),
            None => forall|j: int| 0 <= j < connectors@.len()
                ==> !connector_eligible(#[trigger] connectors@[j], target_interface),
        },
{
    let mut chosen: Option<usize> = None;
    let mut k: usize = 0;
    while k < connectors.len()
        invariant
            k <= connectors@.len(),
            match chosen {
                Some(i) => {
                    &&& i < k
                    &&& connector_eligible(connectors@[i as int], target_interface)
                    &&& forall|j: int| i < j < k
                        ==> !connector_eligible(#[trigger] connectors@[j], target_interface)
                },
                None => forall|j: int| 0 <= j < k
                    ==> !connector_eligible(#[trigger] connectors@[j], target_interface),
            },
        decreases connectors@.len() - k,
    {
        let c = &connectors[k];
        if c.connected && c.interface == target_interface {
            chosen = Some(k);
        }
        k = k + 1;
    }
    chosen
}

/// Picks the display mode of a connector: among the modes flagged preferred,
/// the first with the highest vertical refresh rate; with no preferred mode,
/// the first advertised one. Only an empty mode list yields no pick.
pub fn select_mode(modes: &Vec<ModeInfo>) -> (r: Option<usize>)
    ensures
        r is Some <==> modes@.len() > 0,
        match r {
            Some(i) => is_chosen_mode(modes@, i as int),
            None => true,
        },
{
    let mut best_preferred: Option<usize> = None;
    let mut k: usize = 0;
    while k < modes.len()
        invariant
            k <= modes@.len(),
            match best_preferred {
                Some(b) => {
                    &&& b < k
                    &&& modes@[b as int].preferred
                    &&& forall|j: int| 0 <= j < k && (#[trigger] modes@[j]).preferred
                        ==> modes@[j].vrefresh <= modes@[b as int].vrefresh
                    &&& forall|j: int| 0 <= j < b && (#[trigger] modes@[j]).preferred
                        ==> modes@[j].vrefresh < modes@[b as int].vrefresh
                },
                None => forall|j: int| 0 <= j < k ==> !(#[trigger] modes@[j]).preferred,
            },
        decreases modes@.len() - k,
    {
        let m = &modes[k];
        if m.preferred {
            match best_preferred {
                Some(b) => {
                    if modes[b].vrefresh < m.vrefresh {
                        best_preferred = Some(k);
                    }
                },
                None => {
                    best_preferred = Some(k);
                },
            }
        }
        k = k + 1;
    }
    match best_preferred {
        Some(b) => Some(b),
        None => {
            if modes.len() > 0 {
                Some(0)
            } else {
                None
            }
        },
    }
}

/// A candidate list is ordered when overlay-plane counts never increase along
/// it.
pub open spec fn sorted_by_planes_desc(s: Seq<CrtcInfo>) -> bool {
    forall|i: int, j: int|
        #![trigger s[i], s[j]]
        0 <= i <= j < s.len() ==> s[i].overlay_planes >= s[j].overlay_planes
}

/// Inserting keeps a candidate list ordered, adds exactly the inserted CRTC,
/// and invents no entry.
proof fn lemma_insert_by_planes_props(c: CrtcInfo, s: Seq<CrtcInfo>)
    ensures
        insert_by_planes(c, s).len() == s.len() + 1,
        forall|k: int| 0 <= k < insert_by_planes(c, s).len()
            ==> (#[trigger] insert_by_planes(c, s)[k]) == c || s.contains(insert_by_planes(c, s)[k]),
        sorted_by_planes_desc(s) ==> sorted_by_planes_desc(insert_by_planes(c, s)),
    decreases s.len(),
{
    if s.len() == 0 {
    } else if c.overlay_planes >= s[0].overlay_planes {
        let t = insert_by_planes(c, s);
        assert(t == seq![c] + s);
        assert forall|k: int| 0 <= k < t.len() implies (#[trigger] t[k]) == c || s.contains(t[k]) by {
            if k > 0 {
                assert(t[k] == s[k - 1]);
            }
        }
        if sorted_by_planes_desc(s) {
            assert forall|i: int, j: int|
                #![trigger t[i], t[j]]
                0 <= i <= j < t.len() implies t[i].overlay_planes >= t[j].overlay_planes by {
                if i == 0 && j > 0 {
                    assert(s[0].overlay_planes >= s[j - 1].overlay_planes);
                }
            }
        }
    } else {
        let rest = s.drop_first();
        lemma_insert_by_planes_props(c, rest);
        let u = insert_by_planes(c, rest);
        let t = insert_by_planes(c, s);
        assert(t == seq![s[0]] + u);
        assert forall|k: int| 0 <= k < t.len() implies (#[trigger] t[k]) == c || s.contains(t[k]) by {
            if k == 0 {
                assert(s[0] == s[0]);
                assert(s.contains(s[0]));
            } else {
                assert(t[k] == u[k - 1]);
                if t[k] != c {
                    assert(rest.contains(t[k]));
                    let m: int = choose|m: int| 0 <= m < rest.len() && rest[m] == t[k];
                    assert(s[m + 1] == t[k]);
                    assert(s.contains(t[k]));
                }
            }
        }
        if sorted_by_planes_desc(s) {
            assert(sorted_by_planes_desc(rest)) by {
                assert forall|i: int, j: int|
                    #![trigger rest[i], rest[j]]
                    0 <= i <= j < rest.len()
                        implies rest[i].overlay_planes >= rest[j].overlay_planes by {
                    assert(s[i + 1].overlay_planes >= s[j + 1].overlay_planes);
                }
            }
            assert forall|i: int, j: int|
                #![trigger t[i], t[j]]
                0 <= i <= j < t.len() implies t[i].overlay_planes >= t[j].overlay_planes by {
                if i == 0 && j > 0 {
                    // the head dominates everything inserted behind it: the
                    // entry at j is either the inserted CRTC (which lost the
                    // comparison against the head) or one of the later CRTCs
                    assert(t[j] == u[j - 1]);
                    if u[j - 1] == c {
                        assert(s[0].overlay_planes >= c.overlay_planes);
                    } else {
                        assert(rest.contains(u[j - 1]));
                        let m: int = choose|m: int| 0 <= m < rest.len() && rest[m] == u[j - 1];
                        assert(s[0].overlay_planes >= s[m + 1].overlay_planes);
                    }
                } else if i > 0 {
                    assert(t[i] == u[i - 1]);
                    assert(t[j] == u[j - 1]);
                    assert(u[i - 1].overlay_planes >= u[j - 1].overlay_planes);
                }
            }
        }
    }
}

/// The candidate order of one encoder is really ordered: overlay-plane counts
/// never increase along it, it is as long as the encoder's CRTC list, and
/// every entry comes from that list.
pub proof fn lemma_order_by_planes_sorted(s: Seq<CrtcInfo>)
    ensures
        order_by_planes(s).len() == s.len(),
        sorted_by_planes_desc(order_by_planes(s)),
        forall|k: int| 0 <= k < order_by_planes(s).len()
            ==> s.contains(#[trigger] order_by_planes(s)[k]),
    decreases s.len(),
{
    if s.len() > 0 {
        let rest = s.drop_first();
        lemma_order_by_planes_sorted(rest);
        lemma_insert_by_planes_props(s[0], order_by_planes(rest));
        let t = order_by_planes(s);
        assert forall|k: int| 0 <= k < t.len() implies s.contains(#[trigger] t[k]) by {
            if t[k] == s[0] {
                assert(s.contains(s[0]));
            } else {
                assert(order_by_planes(rest).contains(t[k]));
                let m: int = choose|m: int|
                    0 <= m < order_by_planes(rest).len() && order_by_planes(rest)[m] == t[k];
                assert(rest.contains(t[k]));
                let n: int = choose|n: int| 0 <= n < rest.len() && rest[n] == t[k];
                assert(s[n + 1] == t[k]);
                assert(s.contains(t[k]));
            }
        }
    }
}

/// Inserting lands a CRTC exactly at the first index whose entry does not
/// strictly beat it on overlay planes.
proof fn lemma_insert_by_planes_at(c: CrtcInfo, s: Seq<CrtcInfo>, i: int)
    requires
        0 <= i <= s.len(),
        forall|j: int| 0 <= j < i ==> c.overlay_planes < (#[trigger] s[j]).overlay_planes,
        i < s.len() ==> c.overlay_planes >= s[i].overlay_planes,
    ensures
        insert_by_planes(c, s) == s.insert(i, c),
    decreases i,
{
    if i == 0 {
        assert(insert_by_planes(c, s) =~= s.insert(0, c));
    } else {
        lemma_insert_by_planes_at(c, s.drop_first(), i - 1);
        assert(insert_by_planes(c, s) =~= s.insert(i, c));
    }
}

/// Inserts a CRTC into an ordered candidate list, keeping descending
/// overlay-plane order and placing it after earlier entries that tie.
fn insert_crtc(v: &mut Vec<CrtcInfo>, c: CrtcInfo)
    ensures
        final(v)@ == insert_by_planes(c, old(v)@),
{
    let mut i: usize = 0;
    while i < v.len() && v[i].overlay_planes > c.overlay_planes
        invariant
            i <= v@.len(),
            v@ == old(v)@,
            forall|j: int| 0 <= j < i ==> c.overlay_planes < (#[trigger] v@[j]).overlay_planes,
        decreases v@.len() - i,
    {
        i = i + 1;
    }
    proof {
        lemma_insert_by_planes_at(c, v@, i as int);
    }
    v.insert(i, c);
}

/// Orders one encoder's CRTCs by descending overlay-plane count, ties kept in
/// enumeration order.
fn order_encoder_crtcs(crtcs: &Vec<CrtcInfo>) -> (r: Vec<CrtcInfo>)
    ensures
        r@ == order_by_planes(crtcs@),
{
    let ghost n: int = crtcs@.len() as int;
    let mut r: Vec<CrtcInfo> = Vec::new();
    let mut i: usize = crtcs.len();
    while i > 0
        invariant
            i <= crtcs@.len(),
            n == crtcs@.len() as int,
            r@ == order_by_planes(crtcs@.subrange(i as int, n)),
        decreases i,
    {
        i = i - 1;
        proof {
            assert(crtcs@.subrange(i as int, n).drop_first()
                =~= crtcs@.subrange(i as int + 1, n));
        }
        insert_crtc(&mut r, crtcs[i]);
    }
    proof {
        assert(crtcs@.subrange(0, n) =~= crtcs@);
    }
    r
}

/// Appending one more encoder extends the attempt order by that encoder's
/// ordered CRTCs.
proof fn lemma_crtc_attempt_order_push(encs: Seq<EncoderInfo>, e: EncoderInfo)
    ensures
        crtc_attempt_order(encs.push(e)) == crtc_attempt_order(encs) + order_by_planes(e.crtcs@),
    decreases encs.len(),
{
    if encs.len() == 0 {
        assert(encs.push(e).drop_first() =~= Seq::<EncoderInfo>::empty());
        assert(encs.push(e)[0] == e);
        assert(crtc_attempt_order(encs.push(e).drop_first()) =~= Seq::<CrtcInfo>::empty());
        assert(crtc_attempt_order(encs) =~= Seq::<CrtcInfo>::empty());
        assert(crtc_attempt_order(encs.push(e))
            =~= crtc_attempt_order(encs) + order_by_planes(e.crtcs@));
    } else {
        lemma_crtc_attempt_order_push(encs.drop_first(), e);
        assert(encs.push(e).drop_first() =~= encs.drop_first().push(e));
        assert(encs.push(e)[0] == encs[0]);
        assert(crtc_attempt_order(encs.push(e))
            == order_by_planes(encs[0].crtcs@)
                + crtc_attempt_order(encs.drop_first().push(e)));
        assert(crtc_attempt_order(encs.push(e))
            =~= crtc_attempt_order(encs) + order_by_planes(e.crtcs@));
    }
}

/// Computes the CRTC attempt order of a connector: within each encoder, CRTCs
/// with more overlay planes come first and ties keep enumeration order; the
/// per-encoder lists are concatenated in encoder enumeration order.
pub fn order_crtc_candidates(encoders: &Vec<EncoderInfo>) -> (r: Vec<CrtcInfo>)
    ensures
        r@ == crtc_attempt_order(encoders@),
{
    let mut r: Vec<CrtcInfo> = Vec::new();
    let mut k: usize = 0;
    while k < encoders.len()
        invariant
            k <= encoders@.len(),
            r@ == crtc_attempt_order(encoders@.subrange(0, k as int)),
        decreases encoders@.len() - k,
    {
        let mut ordered = order_encoder_crtcs(&encoders[k].crtcs);
        proof {
            lemma_crtc_attempt_order_push(
                encoders@.subrange(0, k as int),
                encoders@[k as int],
            );
            assert(encoders@.subrange(0, k as int).push(encoders@[k as int])
                =~= encoders@.subrange(0, k as int + 1));
        }
        r.append(&mut ordered);
        k = k + 1;
    }
    proof {
        assert(encoders@.subrange(0, encoders@.len() as int) =~= encoders@);
    }
    r
}

/// The immutable selection result computed once per device open: the chosen
/// connector, its chosen mode, and the CRTCs to try in order. Indices point
/// into the connector list handed to [`plan_output`].
#[derive(Clone, PartialEq, Eq, Debug)]
pub struct OutputPlan {
    pub connector_index: usize,
    pub mode_index: usize,
    pub crtc_candidates: Vec<CrtcInfo>,
}

/// Selects the output pipeline of an opened device, up to the surface
/// attempts: the last connected connector of the target interface kind, its
/// chosen mode, and the CRTC attempt order. Fails with
/// [`SelectError::NoCompatibleDisplay`] exactly when no connector survives the
/// filter, and with [`SelectError::NoUsableMode`] exactly when the chosen
/// connector advertises no mode.
pub fn plan_output(connectors: &Vec<ConnectorInfo>, target_interface: u32) -> (r: Result<
    OutputPlan,
    SelectError,
>)
    ensures
        r is Ok <==> exists|i: int|
            is_chosen_connector(connectors@, target_interface, i)
                && connectors@[i].modes@.len() > 0,
        match r {
            Ok(plan) => {
                &&& is_chosen_connector(connectors@, target_interface, plan.connector_index as int)
                &&& is_chosen_mode(
                    connectors@[plan.connector_index as int].modes@,
                    plan.mode_index as int,
                )
                &&& plan.crtc_candidates@ == crtc_attempt_order(
                    connectors@[plan.connector_index as int].encoders@,
                )
            },
            Err(e) => {
                &&& (e == SelectError::NoCompatibleDisplay <==> forall|j: int|
                    0 <= j < connectors@.len()
                        ==> !connector_eligible(#[trigger] connectors@[j], target_interface))
                &&& (e == SelectError::NoUsableMode <==> exists|i: int|
                    is_chosen_connector(connectors@, target_interface, i)
                        && connectors@[i].modes@.len() == 0)
                &&& e != SelectError::NoUsableOutputPipeline
            },
        },
{
    let connector_index = match pick_connector(connectors, target_interface) {
        Some(i) => i,
        None => {
            return Err(SelectError::NoCompatibleDisplay);
        },
    };
    let connector = &connectors[connector_index];
    let mode_index = match select_mode(&connector.modes) {
        Some(i) => i,
        None => {
            return Err(SelectError::NoUsableMode);
        },
    };
    let crtc_candidates = order_crtc_candidates(&connector.encoders);
    Ok(OutputPlan { connector_index, mode_index, crtc_candidates })
}

/// Accepts the first CRTC candidate whose scanout-surface attempt succeeded.
/// `accepted[i]` reports the attempt on `candidates[i]`; the result is the
/// first accepted index, or [`SelectError::NoUsableOutputPipeline`] exactly
/// when every attempt failed.
pub fn choose_crtc(candidates: &Vec<CrtcInfo>, accepted: &Vec<bool>) -> (r: Result<
    usize,
    SelectError,
>)
    requires
        accepted@.len() == candidates@.len(),
    ensures
        match r {
            Ok(i) => {
                &&& i < candidates@.len()
                &&& accepted@[i as int]
                &&& forall|j: int| 0 <= j < i ==> !(#[trigger] accepted@[j])
            },
            Err(e) => {
                &&& e == SelectError::NoUsableOutputPipeline
                &&& forall|j: int| 0 <= j < accepted@.len() ==> !(#[trigger] accepted@[j])
            },
        },
{
    let mut k: usize = 0;
    while k < accepted.len()
        invariant
            k <= accepted@.len(),
            accepted@.len() == candidates@.len(),
            forall|j: int| 0 <= j < k ==> !(#[trigger] accepted@[j]),
        decreases accepted@.len() - k,
    {
        if accepted[k] {
            return Ok(k);
        }
        k = k + 1;
    }
    Err(SelectError::NoUsableOutputPipeline)
}

/// The physical size reported by the connector, in millimetres, defaulting to
/// zero by zero when the connector reports none.
pub fn physical_size_or_default(reported: Option<(u32, u32)>) -> (r: (u32, u32))
    ensures
        match reported {
            Some(s) => r == s,
            None => r == (0u32, 0u32),
        },
{
    match reported {
        Some(s) => s,
        None => (0, 0),
    }
}

/// A display-identification label (make or model), defaulting to "Unknown"
/// when the identification data yields none.
pub fn label_or_unknown(label: Option<String>) -> (r: String)
    ensures
        match label {
            Some(l) => r == l,
            None => r@ == "Unknown"@,
        },
{
    match label {
        Some(l) => l,
        None => "Unknown".to_owned(),
    }
}

} // verus!
