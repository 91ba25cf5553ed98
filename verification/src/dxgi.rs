//! The native-layer model: display descriptors, output enumeration, and the
//! capture-session state machine.
//!
//! Native handles (factory, adapter, output, device, context, duplication,
//! staging surface) live in the unverified driver; here each native call is
//! represented by the plain values it reports — a status code, a descriptor,
//! a pitch — and the logic that decides on them is verified.

use vstd::prelude::*;
use crate::hresult::{ErrorKind, wrap_hresult, hresult_kind, S_OK};

verus! {

/// Cached descriptor of one output: desktop rectangle, native rotation code,
/// and the fixed-size device-name buffer.
pub struct OutputDesc {
    pub left: i32,
    pub top: i32,
    pub right: i32,
    pub bottom: i32,
    pub rotation: u32,
    pub name: Vec<u16>,
}

/// Mathematical model of an output descriptor.
pub ghost struct DescModel {
    pub left: int,
    pub top: int,
    pub right: int,
    pub bottom: int,
    pub rotation: int,
    pub name: Seq<u16>,
}

impl DescModel {
    /// Width of the desktop rectangle.
    pub open spec fn width(self) -> int {
        self.right - self.left
    }

    /// Height of the desktop rectangle.
    pub open spec fn height(self) -> int {
        self.bottom - self.top
    }

    /// A descriptor is valid when its desktop rectangle is non-degenerate
    /// and its extents fit the native signed 32-bit coordinate type.
    pub open spec fn valid(self) -> bool {
        &&& self.left < self.right
        &&& self.top < self.bottom
        &&& self.width() <= i32::MAX
        &&& self.height() <= i32::MAX
    }
}

impl View for OutputDesc {
    type V = DescModel;

    open spec fn view(&self) -> DescModel {
        DescModel {
            left: self.left as int,
            top: self.top as int,
            right: self.right as int,
            bottom: self.bottom as int,
            rotation: self.rotation as int,
            name: self.name@,
        }
    }
}

/// Every valid output has strictly positive width and height.
pub proof fn lemma_valid_output_dimensions(d: DescModel)
    requires
        d.valid(),
    ensures
        d.width() > 0,
        d.height() > 0,
{
}

impl OutputDesc {
    /// An owned copy of this descriptor.
    pub fn duplicate(&self) -> (r: OutputDesc)
        ensures
            r@ == self@,
    {
        let mut name: Vec<u16> = Vec::new();
        let mut i: usize = 0;
        while i < self.name.len()
            invariant
                0 <= i <= self.name.len(),
                name@ == self.name@.take(i as int),
            decreases self.name.len() - i,
        {
            name.push(self.name[i]);
            proof {
                assert(name@ =~= self.name@.take(i + 1 as int));
            }
            i = i + 1;
        }
        proof {
            assert(name@ =~= self.name@);
        }
        OutputDesc {
            left: self.left,
            top: self.top,
            right: self.right,
            bottom: self.bottom,
            rotation: self.rotation,
            name,
        }
    }
}

/// An immutable handle to one enumerated output.
pub struct Display {
    pub desc: OutputDesc,
}

impl View for Display {
    type V = DescModel;

    open spec fn view(&self) -> DescModel {
        self.desc@
    }
}

impl Display {
    /// Width in pixels, derived from the cached rectangle.
    pub fn width(&self) -> (r: i32)
        requires
            i32::MIN <= self@.width() <= i32::MAX,
        ensures
            r as int == self@.width(),
    {
        self.desc.right - self.desc.left
    }

    /// Height in pixels, derived from the cached rectangle.
    pub fn height(&self) -> (r: i32)
        requires
            i32::MIN <= self@.height() <= i32::MAX,
        ensures
            r as int == self@.height(),
    {
        self.desc.bottom - self.desc.top
    }

    /// The raw native rotation code of the output.
    pub fn rotation(&self) -> (r: u32)
        ensures
            r as int == self@.rotation,
    {
        self.desc.rotation
    }

    /// The device name: the buffer up to, and not including, its first null
    /// terminator, or the whole buffer when no null occurs.
    pub fn name(&self) -> (r: Vec<u16>)
        ensures
            r@.len() <= self@.name.len(),
            r@ == self@.name.take(r@.len() as int),
            forall|j: int| 0 <= j < r@.len() ==> self@.name[j] != 0,
            r@.len() < self@.name.len() ==> self@.name[r@.len() as int] == 0,
    {
        let mut out: Vec<u16> = Vec::new();
        let mut i: usize = 0;
        while i < self.desc.name.len()
            invariant
                0 <= i <= self.desc.name.len(),
                out@.len() == i,
                out@ == self@.name.take(i as int),
                forall|j: int| 0 <= j < i ==> self@.name[j] != 0,
            decreases self.desc.name.len() - i,
        {
            let c = self.desc.name[i];
            if c == 0 {
                return out;
            }
            out.push(c);
            proof {
                assert(out@ =~= self@.name.take(i + 1 as int));
            }
            i = i + 1;
        }
        out
    }
}

/// What probing one output slot reported: the output's cached descriptor and
/// whether it could be upgraded to the duplication-capable interface.
pub struct OutputProbe {
    pub desc: OutputDesc,
    pub dup_capable: bool,
}

/// Mathematical model of an output probe.
pub ghost struct ProbeModel {
    pub desc: DescModel,
    pub dup_capable: bool,
}

impl View for OutputProbe {
    type V = ProbeModel;

    open spec fn view(&self) -> ProbeModel {
        ProbeModel { desc: self.desc@, dup_capable: self.dup_capable }
    }
}

/// What probing one adapter reported: its outputs, in output-index order.
pub struct AdapterProbe {
    pub outputs: Vec<OutputProbe>,
}

impl View for AdapterProbe {
    type V = Seq<ProbeModel>;

    open spec fn view(&self) -> Seq<ProbeModel> {
        self.outputs@.map_values(|p: OutputProbe| p@)
    }
}

/// The probed adapter/output topology, adapter-index order outside,
/// output-index order inside.
pub open spec fn topo_of(adapters: Seq<AdapterProbe>) -> Seq<Seq<ProbeModel>> {
    adapters.map_values(|a: AdapterProbe| a@)
}

/// The descriptors that one adapter yields when probed from output index `p`
/// on: the longest run of duplication-capable outputs before the first slot
/// that is missing or fails to upgrade.
pub open spec fn capable_from(a: Seq<ProbeModel>, p: int) -> Seq<DescModel>
    decreases a.len() - p,
{
    if p < 0 || p >= a.len() || !a[p].dup_capable {
        Seq::empty()
    } else {
        seq![a[p].desc] + capable_from(a, p + 1)
    }
}

/// The descriptors yielded from adapter index `i` on, when each adapter is
/// entered at its first output: an adapter that yields nothing — empty,
/// access-denied, or failing to upgrade at its first slot — is silently
/// skipped, and the sequence ends only when no further adapter exists.
pub open spec fn chain(t: Seq<Seq<ProbeModel>>, i: int) -> Seq<DescModel>
    decreases t.len() - i,
{
    if i < 0 || i >= t.len() {
        Seq::empty()
    } else {
        capable_from(t[i], 0) + chain(t, i + 1)
    }
}

/// Everything an enumeration of topology `t` yields: for every adapter, in
/// adapter-index order, its longest prefix of duplication-capable outputs,
/// in output-index order.
pub open spec fn enumerate(t: Seq<Seq<ProbeModel>>) -> Seq<DescModel> {
    chain(t, 0)
}

/// The lazy, finite, non-restartable enumerator of capturable displays.
///
/// `live` stands for "a current adapter is held"; `nadapter` is the index of
/// the current adapter and `ndisplay` the index of the next output to probe
/// on it, exactly as the native enumerator keeps them.
pub struct Displays {
    pub adapters: Vec<AdapterProbe>,
    pub live: bool,
    pub nadapter: usize,
    pub ndisplay: usize,
}

impl Displays {
    /// The probed topology this enumerator walks.
    pub open spec fn topo(self) -> Seq<Seq<ProbeModel>> {
        topo_of(self.adapters@)
    }

    /// The cursor points at a held adapter.
    pub open spec fn wf(self) -> bool {
        self.live ==> self.nadapter < self.adapters@.len()
    }

    /// The descriptors this enumerator has yet to yield.
    pub open spec fn remaining(self) -> Seq<DescModel> {
        if !self.live {
            Seq::empty()
        } else {
            capable_from(self.topo()[self.nadapter as int], self.ndisplay as int)
                + chain(self.topo(), self.nadapter as int + 1)
        }
    }

    /// Starts an enumeration over the probed topology.  `status` is what the
    /// native factory-creation call returned: on success the enumerator
    /// stands ready to yield `enumerate` of the topology; any other status
    /// translates to its portable kind.
    pub fn new(status: u32, adapters: Vec<AdapterProbe>) -> (r: Result<Displays, ErrorKind>)
        ensures
            status == S_OK <==> r is Ok,
            status != S_OK ==> r == Err::<Displays, ErrorKind>(hresult_kind(status)),
            r matches Ok(d) ==> d.wf() && d.topo() == topo_of(adapters@)
                && d.remaining() == enumerate(topo_of(adapters@)),
    {
        match wrap_hresult(status) {
            Ok(_) => {
                let live = adapters.len() > 0;
                let d = Displays { adapters, live, nadapter: 0, ndisplay: 0 };
                proof {
                    if live {
                        assert(d.remaining() =~= enumerate(d.topo()));
                    }
                }
                Ok(d)
            },
            Err(e) => Err(e),
        }
    }

    /// Probes the next output of the current adapter.
    ///
    /// `Some(None)` reports that no adapter is held, so the sequence is
    /// exhausted; `Some(Some(d))` yields the probed output as a display and
    /// advances the output cursor; `None` reports that the current adapter
    /// is done (its slot was empty or failed to upgrade), releases it, and
    /// asks the caller to retry with the next adapter.
    fn read_and_invalidate(&mut self) -> (r: Option<Option<Display>>)
        requires
            old(self).wf(),
        ensures
            final(self).wf(),
            final(self).adapters@ == old(self).adapters@,
            match r {
                Some(Some(d)) => {
                    &&& old(self).live
                    &&& final(self).live
                    &&& final(self).nadapter == old(self).nadapter
                    &&& final(self).ndisplay == old(self).ndisplay + 1
                    &&& old(self).ndisplay < old(self).topo()[old(self).nadapter as int].len()
                    &&& old(self).topo()[old(self).nadapter as int][old(self).ndisplay as int].dup_capable
                    &&& d@ == old(self).topo()[old(self).nadapter as int][old(self).ndisplay as int].desc
                },
                Some(None) => !old(self).live && *final(self) == *old(self),
                None => {
                    &&& old(self).live
                    &&& !final(self).live
                    &&& final(self).nadapter == old(self).nadapter
                    &&& final(self).ndisplay == old(self).ndisplay
                    &&& capable_from(
                        old(self).topo()[old(self).nadapter as int],
                        old(self).ndisplay as int,
                    ).len() == 0
                },
            },
    {
        if !self.live {
            return Some(None);
        }
        proof {
            assert(self.topo()[self.nadapter as int] == self.adapters@[self.nadapter as int]@);
        }
        let n_out = self.adapters[self.nadapter].outputs.len();
        if self.ndisplay >= n_out {
            self.live = false;
            return None;
        }
        proof {
            assert(self.topo()[self.nadapter as int][self.ndisplay as int]
                == self.adapters@[self.nadapter as int].outputs@[self.ndisplay as int]@);
        }
        if !self.adapters[self.nadapter].outputs[self.ndisplay].dup_capable {
            self.live = false;
            return None;
        }
        let desc = self.adapters[self.nadapter].outputs[self.ndisplay].desc.duplicate();
        self.ndisplay = self.ndisplay + 1;
        Some(Some(Display { desc }))
    }

    /// Pulls the next display.  When the current adapter is done, the
    /// enumerator releases it and walks forward over the remaining
    /// adapters, silently skipping every one that yields nothing; the
    /// sequence ends only when no further adapter exists.
    pub fn next(&mut self) -> (r: Option<Display>)
        requires
            old(self).wf(),
        ensures
            final(self).wf(),
            final(self).adapters@ == old(self).adapters@,
            old(self).remaining().len() > 0 ==> r is Some
                && r->0@ == old(self).remaining()[0]
                && final(self).remaining() == old(self).remaining().drop_first(),
            old(self).remaining().len() == 0 ==> r is None
                && final(self).remaining().len() == 0,
    {
        let ghost s0 = *self;
        let first = self.read_and_invalidate();
        match first {
            Some(opt) => {
                match opt {
                    Some(d) => {
                        proof {
                            let t = s0.topo();
                            let i = s0.nadapter as int;
                            let p = s0.ndisplay as int;
                            assert(capable_from(t[i], p)
                                == seq![t[i][p].desc] + capable_from(t[i], p + 1));
                            assert(s0.remaining() =~= seq![t[i][p].desc]
                                + (capable_from(t[i], p + 1) + chain(t, i + 1)));
                            assert(s0.remaining().drop_first()
                                =~= capable_from(t[i], p + 1) + chain(t, i + 1));
                            assert(self.remaining()
                                =~= capable_from(t[i], p + 1) + chain(t, i + 1));
                        }
                        Some(d)
                    },
                    None => None,
                }
            },
            None => {
                proof {
                    assert(s0.remaining()
                        =~= chain(s0.topo(), s0.nadapter as int + 1));
                }
                loop
                    invariant
                        s0 == *old(self),
                        !self.live,
                        self.nadapter < self.adapters@.len(),
                        self.adapters@ == s0.adapters@,
                        chain(self.topo(), self.nadapter as int + 1) == s0.remaining(),
                    decreases self.adapters@.len() - self.nadapter,
                {
                    let ghost t = self.topo();
                    let ghost k = self.nadapter as int;
                    let n_adapters = self.adapters.len();
                    self.ndisplay = 0;
                    self.nadapter = self.nadapter + 1;
                    self.live = self.nadapter < n_adapters;
                    match self.read_and_invalidate() {
                        Some(opt) => {
                            match opt {
                                Some(d) => {
                                    proof {
                                        assert(capable_from(t[k + 1], 0)
                                            == seq![t[k + 1][0].desc] + capable_from(t[k + 1], 1));
                                        assert(chain(t, k + 1)
                                            == capable_from(t[k + 1], 0) + chain(t, k + 2));
                                        assert(s0.remaining() =~= seq![t[k + 1][0].desc]
                                            + (capable_from(t[k + 1], 1) + chain(t, k + 2)));
                                        assert(s0.remaining().drop_first()
                                            =~= capable_from(t[k + 1], 1) + chain(t, k + 2));
                                        assert(self.remaining()
                                            =~= capable_from(t[k + 1], 1) + chain(t, k + 2));
                                    }
                                    return Some(d);
                                },
                                None => {
                                    proof {
                                        assert(k + 1 >= t.len());
                                        assert(chain(t, k + 1).len() == 0);
                                    }
                                    return None;
                                },
                            }
                        },
                        None => {
                            proof {
                                assert(capable_from(t[k + 1], 0).len() == 0);
                                assert(chain(t, k + 1) =~= chain(t, k + 2));
                            }
                        },
                    }
                }
            },
        }
    }
}

/// Mathematical model of a capture session's resource state.
pub ghost struct SessionModel {
    /// The desktop image is resident in system memory, decided once at
    /// session creation.
    pub fastlane: bool,
    /// A staging surface is currently held (staging-copy path only).
    pub surface: bool,
    /// A buffer mapping is currently active.
    pub mapped: bool,
    /// Length of the currently mapped view, in bytes.
    pub len: nat,
    /// Cached output height, in rows.
    pub height: nat,
}

impl SessionModel {
    /// At most one mapping is active at a time and it mirrors the session's
    /// mode: the fastlane never holds a staging surface, and a staging-path
    /// mapping is always backed by a held surface.
    pub open spec fn wf(self) -> bool {
        &&& self.fastlane ==> !self.surface
        &&& self.mapped && !self.fastlane ==> self.surface
    }
}

/// What the native calls of one acquisition attempt reported: the status of
/// the acquire call, of the staging-texture creation (staging path only), of
/// the map call, and the mapped buffer's pitch and contents.
pub struct FrameIo {
    pub acquire_status: u32,
    pub create_status: u32,
    pub map_status: u32,
    pub pitch: usize,
    pub bytes: Vec<u8>,
}

/// What one acquisition attempt returns, decided from the reported statuses:
/// the acquire call's failure first, then — per mode — the staging-texture
/// creation's and the map call's.
pub open spec fn load_result(pre: SessionModel, io: FrameIo) -> Result<(), ErrorKind> {
    if io.acquire_status != S_OK {
        Err(hresult_kind(io.acquire_status))
    } else if pre.fastlane {
        if io.map_status != S_OK {
            Err(hresult_kind(io.map_status))
        } else {
            Ok(())
        }
    } else {
        if io.create_status != S_OK {
            Err(hresult_kind(io.create_status))
        } else if io.map_status != S_OK {
            Err(hresult_kind(io.map_status))
        } else {
            Ok(())
        }
    }
}

/// The session state after one acquisition attempt.  A failed staging chain
/// leaves no surface behind — everything acquired so far is released — but a
/// surface whose map call failed stays held, to be unmapped and released on
/// the next poll.
pub open spec fn load_post(pre: SessionModel, io: FrameIo) -> SessionModel {
    let cleared = SessionModel { mapped: false, ..pre };
    if io.acquire_status != S_OK {
        cleared
    } else if pre.fastlane {
        if io.map_status != S_OK {
            cleared
        } else {
            SessionModel { mapped: true, len: (pre.height * io.pitch) as nat, ..cleared }
        }
    } else {
        let dropped = SessionModel { surface: false, ..cleared };
        if io.create_status != S_OK {
            dropped
        } else {
            let held = SessionModel { surface: true, ..dropped };
            if io.map_status != S_OK {
                held
            } else {
                SessionModel { mapped: true, len: (pre.height * io.pitch) as nat, ..held }
            }
        }
    }
}

/// The session state after the best-effort release steps that precede every
/// acquisition: the previous mapping is undone and any staging surface is
/// unmapped and released.
pub open spec fn release_previous(s: SessionModel) -> SessionModel {
    SessionModel { mapped: false, surface: false, ..s }
}

/// A fresh session's state: mode decided from the duplication descriptor,
/// nothing held, nothing mapped.
pub open spec fn init_session(fastlane: bool, height: int) -> SessionModel {
    SessionModel { fastlane, surface: false, mapped: false, len: 0, height: height as nat }
}

/// The acquisition step preserves the session invariant: at most one mapping
/// is active and it mirrors the session's mode.
pub proof fn lemma_load_preserves_wf(pre: SessionModel, io: FrameIo)
    requires
        pre.wf(),
    ensures
        load_post(pre, io).wf(),
{
}

/// The acquisition step never changes the session's mode or cached height:
/// `fastlane` is decided once, at session creation, and `height` is cached
/// from the display.
pub proof fn lemma_load_keeps_mode(pre: SessionModel, io: FrameIo)
    ensures
        load_post(pre, io).fastlane == pre.fastlane,
        load_post(pre, io).height == pre.height,
{
}

/// Every successfully loaded frame covers exactly `height * pitch` bytes, so
/// within one session the returned length is the same for every frame whose
/// reported pitch is the same.
pub proof fn lemma_frame_length_stable(s1: SessionModel, s2: SessionModel, io1: FrameIo, io2: FrameIo)
    requires
        s1.height == s2.height,
        io1.pitch == io2.pitch,
        load_result(s1, io1) is Ok,
        load_result(s2, io2) is Ok,
    ensures
        load_post(s1, io1).len == load_post(s2, io2).len,
        load_post(s1, io1).len == s1.height * io1.pitch,
{
}

/// Under the 32-bit-pixel assumption — the mapped buffer's reported pitch is
/// at least `4 * width` — every successfully loaded frame covers at least
/// `height * width * 4` bytes.  That the native facility reports such a
/// pitch, and the same pitch for every frame of one session, is a property
/// of the native mapped buffer that this model takes as input.
pub proof fn lemma_frame_length_bound(s: SessionModel, io: FrameIo, width: nat)
    requires
        load_result(s, io) is Ok,
        io.pitch >= 4 * width,
    ensures
        load_post(s, io).len == s.height * io.pitch,
        load_post(s, io).len >= s.height * 4 * width,
{
    assert(s.height * io.pitch >= s.height * 4 * width) by (nonlinear_arith)
        requires
            io.pitch >= 4 * width,
            s.height >= 0,
    ;
}

/// What the native calls of session construction reported: the status of the
/// device-creation and output-duplication calls, the duplication
/// descriptor's system-memory flag, and the outcomes of the priming
/// acquisition attempt.
pub struct SessionIo {
    pub create_device_status: u32,
    pub duplicate_status: u32,
    pub in_system_memory: bool,
    pub first: FrameIo,
}

/// One release step of a session's teardown, to be performed by the driver.
#[derive(Clone, Copy, Debug, PartialEq, Eq, Structural)]
pub enum ReleaseStep {
    UnmapSurface,
    ReleaseSurface,
    ReleaseDuplication,
    ReleaseDevice,
    ReleaseContext,
}

/// The strict teardown order: unmap and release the staging surface when one
/// is held, then release the duplication session, the device, and the
/// context, unconditionally.
pub open spec fn teardown_plan(s: SessionModel) -> Seq<ReleaseStep> {
    if s.surface {
        seq![
            ReleaseStep::UnmapSurface,
            ReleaseStep::ReleaseSurface,
            ReleaseStep::ReleaseDuplication,
            ReleaseStep::ReleaseDevice,
            ReleaseStep::ReleaseContext,
        ]
    } else {
        seq![ReleaseStep::ReleaseDuplication, ReleaseStep::ReleaseDevice, ReleaseStep::ReleaseContext]
    }
}

/// Teardown releases every native resource the session holds, exactly one
/// release step per live handle: the staging surface's steps appear exactly
/// when a surface is held, and the duplication session, device and context
/// are always released — no session resource survives destruction.
pub proof fn lemma_teardown_releases_all(s: SessionModel)
    ensures
        teardown_plan(s).len() == if s.surface { 5int } else { 3int },
        teardown_plan(s).contains(ReleaseStep::ReleaseDuplication),
        teardown_plan(s).contains(ReleaseStep::ReleaseDevice),
        teardown_plan(s).contains(ReleaseStep::ReleaseContext),
        s.surface <==> teardown_plan(s).contains(ReleaseStep::UnmapSurface),
        s.surface <==> teardown_plan(s).contains(ReleaseStep::ReleaseSurface),
{
    let plan = teardown_plan(s);
    if s.surface {
        assert(plan[0] == ReleaseStep::UnmapSurface);
        assert(plan[1] == ReleaseStep::ReleaseSurface);
        assert(plan[2] == ReleaseStep::ReleaseDuplication);
        assert(plan[3] == ReleaseStep::ReleaseDevice);
        assert(plan[4] == ReleaseStep::ReleaseContext);
    } else {
        assert(plan[0] == ReleaseStep::ReleaseDuplication);
        assert(plan[1] == ReleaseStep::ReleaseDevice);
        assert(plan[2] == ReleaseStep::ReleaseContext);
        assert(forall|i: int| 0 <= i < plan.len() ==> plan[i] != ReleaseStep::UnmapSurface);
        assert(forall|i: int| 0 <= i < plan.len() ==> plan[i] != ReleaseStep::ReleaseSurface);
    }
}

/// A capture session: the decision state of the duplication-session
/// lifecycle.  The native handles it stands for (device, context,
/// duplication session, staging surface, mapped buffer) are owned by the
/// driver; `surface`, `mapped` and `len` say which of them are live and how
/// long the mapped view is.
pub struct Capturer {
    pub fastlane: bool,
    pub surface: bool,
    pub mapped: bool,
    pub len: usize,
    pub height: usize,
}

impl View for Capturer {
    type V = SessionModel;

    open spec fn view(&self) -> SessionModel {
        SessionModel {
            fastlane: self.fastlane,
            surface: self.surface,
            mapped: self.mapped,
            len: self.len as nat,
            height: self.height as nat,
        }
    }
}

impl Capturer {
    /// Opens a capture session against one display.  Device-creation
    /// failures are generic — no native translation is meaningful that
    /// early; duplication failures translate to their portable kind after
    /// the device and context are rolled back.  The priming acquisition's
    /// outcome is deliberately swallowed: construction succeeds even when no
    /// frame is available yet.
    pub fn new(display: &Display, io: SessionIo) -> (r: Result<Capturer, ErrorKind>)
        requires
            0 <= display@.height() <= i32::MAX,
            display@.height() * io.first.pitch <= usize::MAX,
        ensures
            io.create_device_status != S_OK ==> r == Err::<Capturer, ErrorKind>(ErrorKind::Other),
            io.create_device_status == S_OK && io.duplicate_status != S_OK
                ==> r == Err::<Capturer, ErrorKind>(hresult_kind(io.duplicate_status)),
            io.create_device_status == S_OK && io.duplicate_status == S_OK ==> r is Ok,
            r matches Ok(c) ==> c@ == load_post(
                init_session(io.in_system_memory, display@.height()),
                io.first,
            ) && c@.wf() && c@.height == display@.height(),
    {
        if io.create_device_status != S_OK {
            return Err(ErrorKind::Other);
        }
        match wrap_hresult(io.duplicate_status) {
            Err(e) => {
                return Err(e);
            },
            Ok(_) => {},
        }
        let height = display.height() as usize;
        let mut capturer = Capturer {
            fastlane: io.in_system_memory,
            surface: false,
            mapped: false,
            len: 0,
            height,
        };
        let _ = capturer.load_frame(&io.first);
        Ok(capturer)
    }

    /// One acquisition attempt: acquire the next frame, then either map the
    /// desktop surface directly (fastlane) or run the staging-copy chain and
    /// map the staging surface; on success the mapped view covers
    /// `height * pitch` bytes.
    fn load_frame(&mut self, io: &FrameIo) -> (r: Result<(), ErrorKind>)
        requires
            old(self)@.height * io.pitch <= usize::MAX,
        ensures
            final(self)@ == load_post(old(self)@, *io),
            r == load_result(old(self)@, *io),
    {
        self.mapped = false;
        match wrap_hresult(io.acquire_status) {
            Err(e) => Err(e),
            Ok(_) => {
                if self.fastlane {
                    match wrap_hresult(io.map_status) {
                        Err(e) => Err(e),
                        Ok(_) => {
                            self.len = self.height * io.pitch;
                            self.mapped = true;
                            Ok(())
                        },
                    }
                } else {
                    match self.ohgodwhat(io.create_status) {
                        Err(e) => Err(e),
                        Ok(_) => {
                            match wrap_hresult(io.map_status) {
                                Err(e) => Err(e),
                                Ok(_) => {
                                    self.len = self.height * io.pitch;
                                    self.mapped = true;
                                    Ok(())
                                },
                            }
                        },
                    }
                }
            },
        }
    }

    /// The staging-copy chain: the transient frame resource is queried as a
    /// texture, a CPU-readable staging copy of it is created and kept as a
    /// surface.  A creation failure releases everything acquired in the
    /// chain before propagating, so no surface is held on failure.
    fn ohgodwhat(&mut self, create_status: u32) -> (r: Result<(), ErrorKind>)
        ensures
            *final(self) == (Capturer { surface: create_status == S_OK, ..*old(self) }),
            create_status == S_OK <==> r is Ok,
            create_status != S_OK ==> r == Err::<(), ErrorKind>(hresult_kind(create_status)),
    {
        self.surface = false;
        match wrap_hresult(create_status) {
            Err(e) => Err(e),
            Ok(_) => {
                self.surface = true;
                Ok(())
            },
        }
    }

    /// Polls the next frame.  Every call first releases the previous frame's
    /// mapping and frame reference (best-effort, failures ignored), then
    /// runs one acquisition attempt; only that attempt's failure surfaces.
    /// On success the returned buffer is the freshly mapped view, exactly
    /// `height * pitch` bytes.
    pub fn frame(&mut self, timeout: u32, io: FrameIo) -> (r: Result<Vec<u8>, ErrorKind>)
        requires
            old(self)@.wf(),
            old(self)@.height * io.pitch <= usize::MAX,
            io.bytes@.len() == old(self)@.height * io.pitch,
        ensures
            final(self)@.wf(),
            final(self)@ == load_post(release_previous(old(self)@), io),
            r is Ok <==> load_result(release_previous(old(self)@), io) is Ok,
            r matches Ok(b) ==> b@ == io.bytes@ && b@.len() == old(self)@.height * io.pitch,
            r matches Err(e) ==> Err::<(), ErrorKind>(e)
                == load_result(release_previous(old(self)@), io),
            io.acquire_status == crate::hresult::DXGI_ERROR_WAIT_TIMEOUT
                ==> r == Err::<Vec<u8>, ErrorKind>(ErrorKind::TimedOut),
    {
        if self.fastlane {
            // Best-effort unmap of the desktop surface; the native call's
            // result is ignored.
            self.mapped = false;
        } else if self.surface {
            // Best-effort unmap and release of the staging surface; the
            // native calls' results are ignored.
            self.mapped = false;
            self.surface = false;
        }
        // The duplication session's previous frame reference is released
        // here, best-effort, whatever the previous acquisition returned.
        proof {
            assert(self@ == release_previous(old(self)@));
        }
        match self.load_frame(&io) {
            Err(e) => Err(e),
            Ok(_) => Ok(io.bytes),
        }
    }

    /// Consumes the session and returns the release steps the driver must
    /// now perform, in the strict teardown order.
    pub fn close(self) -> (r: Vec<ReleaseStep>)
        ensures
            r@ == teardown_plan(self@),
    {
        let mut plan: Vec<ReleaseStep> = Vec::new();
        if self.surface {
            plan.push(ReleaseStep::UnmapSurface);
            plan.push(ReleaseStep::ReleaseSurface);
        }
        plan.push(ReleaseStep::ReleaseDuplication);
        plan.push(ReleaseStep::ReleaseDevice);
        plan.push(ReleaseStep::ReleaseContext);
        proof {
            assert(plan@ =~= teardown_plan(self@));
        }
        plan
    }
}

/// Enumeration is deterministic and stable: two enumerators over equal
/// probed topologies, standing at equal cursors, have equal sequences left
/// to yield — so enumerating a fixed topology twice yields displays with
/// identical geometry and name, in the same order.
pub proof fn lemma_enumeration_deterministic(a: Displays, b: Displays)
    requires
        a.topo() == b.topo(),
        a.live == b.live,
        a.nadapter == b.nadapter,
        a.ndisplay == b.ndisplay,
    ensures
        a.remaining() == b.remaining(),
{
}

} // verus!
