//! The portable layer over the native-layer model: non-blocking polling with
//! the "would block" convention, primary-display lookup, and the portable
//! orientation of an output.

use vstd::prelude::*;
use crate::Orientation;
use crate::dxgi;
use crate::dxgi::{
    AdapterProbe, DescModel, FrameIo, SessionIo, enumerate, init_session, load_post,
    load_result, release_previous, topo_of,
};
use crate::hresult::{DXGI_ERROR_WAIT_TIMEOUT, ErrorKind, S_OK, hresult_kind};

verus! {

/// The native rotation code for an unspecified orientation.
pub const DXGI_MODE_ROTATION_UNSPECIFIED: u32 = 0;
/// The native rotation code for the identity orientation.
pub const DXGI_MODE_ROTATION_IDENTITY: u32 = 1;
/// The native rotation code for a 90-degree rotation.
pub const DXGI_MODE_ROTATION_ROTATE90: u32 = 2;
/// The native rotation code for a 180-degree rotation.
pub const DXGI_MODE_ROTATION_ROTATE180: u32 = 3;
/// The native rotation code for a 270-degree rotation.
pub const DXGI_MODE_ROTATION_ROTATE270: u32 = 4;

/// The portable orientation that a native rotation code maps to; every
/// unrecognized code folds to `Unknown`.
pub open spec fn orientation_of(rotation: int) -> Orientation {
    if rotation == DXGI_MODE_ROTATION_IDENTITY {
        Orientation::Default
    } else if rotation == DXGI_MODE_ROTATION_ROTATE90 {
        Orientation::Rotate90
    } else if rotation == DXGI_MODE_ROTATION_ROTATE180 {
        Orientation::Rotate180
    } else if rotation == DXGI_MODE_ROTATION_ROTATE270 {
        Orientation::Rotate270
    } else {
        Orientation::Unknown
    }
}

/// One capturable display.
pub struct Display(pub dxgi::Display);

impl View for Display {
    type V = DescModel;

    open spec fn view(&self) -> DescModel {
        self.0@
    }
}

impl Display {
    /// The first display of the enumeration over the probed topology, or
    /// `NotFound` when the enumeration yields none.
    pub fn primary(status: u32, adapters: Vec<AdapterProbe>) -> (r: Result<Display, ErrorKind>)
        ensures
            status != S_OK ==> r == Err::<Display, ErrorKind>(hresult_kind(status)),
            status == S_OK && enumerate(topo_of(adapters@)).len() == 0
                ==> r == Err::<Display, ErrorKind>(ErrorKind::NotFound),
            status == S_OK && enumerate(topo_of(adapters@)).len() > 0
                ==> r is Ok && r->Ok_0@ == enumerate(topo_of(adapters@))[0],
    {
        match dxgi::Displays::new(status, adapters) {
            Err(e) => Err(e),
            Ok(mut displays) => {
                match displays.next() {
                    Some(inner) => Ok(Display(inner)),
                    None => Err(ErrorKind::NotFound),
                }
            },
        }
    }

    /// Every display of the enumeration over the probed topology, in
    /// enumeration order.
    pub fn all(status: u32, adapters: Vec<AdapterProbe>) -> (r: Result<Vec<Display>, ErrorKind>)
        ensures
            status == S_OK <==> r is Ok,
            status != S_OK ==> r == Err::<Vec<Display>, ErrorKind>(hresult_kind(status)),
            r matches Ok(v) ==> v@.map_values(|d: Display| d@) == enumerate(topo_of(adapters@)),
    {
        let ghost full = enumerate(topo_of(adapters@));
        match dxgi::Displays::new(status, adapters) {
            Err(e) => Err(e),
            Ok(mut displays) => {
                let mut out: Vec<Display> = Vec::new();
                loop
                    invariant_except_break
                        displays.wf(),
                        out@.map_values(|d: Display| d@) + displays.remaining() == full,
                    ensures
                        out@.map_values(|d: Display| d@) == full,
                    decreases displays.remaining().len(),
                {
                    let ghost before = displays.remaining();
                    let ghost sofar = out@;
                    match displays.next() {
                        Some(d) => {
                            out.push(Display(d));
                            proof {
                                assert(out@.map_values(|d: Display| d@)
                                    =~= sofar.map_values(|d: Display| d@).push(before[0]));
                                assert(out@.map_values(|d: Display| d@) + displays.remaining()
                                    =~= sofar.map_values(|d: Display| d@) + before);
                            }
                        },
                        None => {
                            proof {
                                assert(out@.map_values(|d: Display| d@) + displays.remaining()
                                    =~= out@.map_values(|d: Display| d@));
                            }
                            break;
                        },
                    }
                }
                Ok(out)
            },
        }
    }

    /// Width in pixels.
    pub fn width(&self) -> (r: usize)
        requires
            0 <= self@.width() <= i32::MAX,
        ensures
            r == self@.width(),
    {
        let w = self.0.width();
        w as usize
    }

    /// Height in pixels.
    pub fn height(&self) -> (r: usize)
        requires
            0 <= self@.height() <= i32::MAX,
        ensures
            r == self@.height(),
    {
        let h = self.0.height();
        h as usize
    }

    /// The portable orientation of this display: the five recognized native
    /// rotation codes map to their portable value, everything else to
    /// `Unknown`.
    pub fn orientation(&self) -> (r: Orientation)
        ensures
            r == orientation_of(self@.rotation),
    {
        let rotation = self.0.rotation();
        if rotation == DXGI_MODE_ROTATION_UNSPECIFIED {
            Orientation::Unknown
        } else if rotation == DXGI_MODE_ROTATION_IDENTITY {
            Orientation::Default
        } else if rotation == DXGI_MODE_ROTATION_ROTATE90 {
            Orientation::Rotate90
        } else if rotation == DXGI_MODE_ROTATION_ROTATE180 {
            Orientation::Rotate180
        } else if rotation == DXGI_MODE_ROTATION_ROTATE270 {
            Orientation::Rotate270
        } else {
            Orientation::Unknown
        }
    }
}

/// A captured frame: an owned view of the mapped buffer's bytes, row-major
/// at the native pitch.  Row boundaries are recovered as
/// `bytes().len() / height`.
pub struct Frame {
    pub data: Vec<u8>,
}

impl Frame {
    /// The raw pixel bytes of this frame.
    pub fn bytes(&self) -> (r: &[u8])
        ensures
            r@ == self.data@,
    {
        self.data.as_slice()
    }
}

/// A capture session with its display's cached geometry.
pub struct Capturer {
    pub inner: dxgi::Capturer,
    pub width: usize,
    pub height: usize,
}

impl Capturer {
    /// Opens a capture session for one display, caching its geometry.
    pub fn new(display: Display, io: SessionIo) -> (r: Result<Capturer, ErrorKind>)
        requires
            0 <= display@.width() <= i32::MAX,
            0 <= display@.height() <= i32::MAX,
            display@.height() * io.first.pitch <= usize::MAX,
        ensures
            io.create_device_status != S_OK ==> r == Err::<Capturer, ErrorKind>(ErrorKind::Other),
            io.create_device_status == S_OK && io.duplicate_status != S_OK
                ==> r == Err::<Capturer, ErrorKind>(hresult_kind(io.duplicate_status)),
            io.create_device_status == S_OK && io.duplicate_status == S_OK ==> r is Ok,
            r matches Ok(c) ==> c.width == display@.width() && c.height == display@.height()
                && c.inner@ == load_post(
                init_session(io.in_system_memory, display@.height()),
                io.first,
            ) && c.inner@.wf() && c.inner@.height == c.height,
    {
        let width = display.width();
        let height = display.height();
        match dxgi::Capturer::new(&display.0, io) {
            Err(e) => Err(e),
            Ok(inner) => Ok(Capturer { inner, width, height }),
        }
    }

    /// Width in pixels of the captured display.
    pub fn width(&self) -> (r: usize)
        ensures
            r == self.width,
    {
        self.width
    }

    /// Height in pixels of the captured display.
    pub fn height(&self) -> (r: usize)
        ensures
            r == self.height,
    {
        self.height
    }

    /// Polls for the next frame without blocking: the acquisition is made
    /// with a zero timeout, and the native wait-timeout condition surfaces
    /// as the portable "would block" kind — the expected steady-state result
    /// between new frames, on which the caller retries.
    pub fn frame(&mut self, io: FrameIo) -> (r: Result<Frame, ErrorKind>)
        requires
            old(self).inner@.wf(),
            old(self).inner@.height * io.pitch <= usize::MAX,
            io.bytes@.len() == old(self).inner@.height * io.pitch,
        ensures
            final(self).inner@.wf(),
            final(self).width == old(self).width,
            final(self).height == old(self).height,
            final(self).inner@ == load_post(release_previous(old(self).inner@), io),
            r is Ok <==> load_result(release_previous(old(self).inner@), io) is Ok,
            r matches Ok(f) ==> f.data@ == io.bytes@,
            r matches Err(e) ==> (load_result(release_previous(old(self).inner@), io)
                matches Err(e0) && e == would_block_of(e0)),
            io.acquire_status == DXGI_ERROR_WAIT_TIMEOUT
                ==> r == Err::<Frame, ErrorKind>(ErrorKind::WouldBlock),
    {
        match self.inner.frame(0, io) {
            Ok(bytes) => Ok(Frame { data: bytes }),
            Err(e) => {
                if e == ErrorKind::TimedOut {
                    Err(ErrorKind::WouldBlock)
                } else {
                    Err(e)
                }
            },
        }
    }
}

/// The remap applied at the polling call site: the native wait-timeout kind
/// becomes "would block", every other kind passes through.
pub open spec fn would_block_of(e: ErrorKind) -> ErrorKind {
    if e == ErrorKind::TimedOut {
        ErrorKind::WouldBlock
    } else {
        e
    }
}

} // verus!
