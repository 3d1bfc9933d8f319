//! The output driver: discovery of display connectors, resolution of their
//! encoder/CRTC binding, mode setting and page flips.
//!
//! The kernel mode-setting interface is reached through blocking device
//! calls that the surrounding program issues; this module holds the
//! fixed-layout records those calls exchange, and the verified decisions
//! around them: which connectors are usable, when a two-phase read must be
//! retried, which command record to submit, and when an operation is illegal
//! in the connector's current state.

use vstd::prelude::*;

verus! {

/// Flag set in a page-flip command to request a completion event instead of
/// blocking until the vertical sync.
pub const DRM_MODE_PAGE_FLIP_EVENT: u32 = 1;

/// Command record for a page flip: the kernel swaps the framebuffer the CRTC
/// scans out.
#[derive(Clone, Copy, Debug)]
pub struct DRMModeCRTCPageFlip {
    /// The CRTC ID.
    pub crtc_id: u32,
    /// The framebuffer ID.
    pub fb_id: u32,
    /// Flags.
    pub flags: u32,
    /// Reserved, must be zero.
    pub reserved: u32,
    /// Value handed back in the completion event.
    pub user_data: u64,
}

/// Record exchanged with the kernel to read or set a CRTC's state.
#[derive(Clone, Copy, Debug)]
pub struct DRMModeCRTC {
    /// Address of an array of connector IDs, filled by the caller.
    pub set_connectors_ptr: u64,
    /// Number of connectors in that array.
    pub count_connectors: u32,
    /// The CRTC ID.
    pub crtc_id: u32,
    /// The bound framebuffer ID; zero means the CRTC drives no output.
    pub fb_id: u32,
    /// Horizontal offset of the scanned-out region.
    pub x: u32,
    /// Vertical offset of the scanned-out region.
    pub y: u32,
    /// Size of the gamma table.
    pub gamma_size: u32,
    /// Whether the `mode` field holds a valid mode.
    pub mode_valid: u32,
    /// The bound display mode.
    pub mode: DRMModeModeinfo,
}

/// Record exchanged with the kernel to read an encoder's state.
#[derive(Clone, Copy, Debug)]
pub struct DRMModeEncoder {
    /// The encoder ID.
    pub encoder_id: u32,
    /// The kind of signal the encoder produces.
    pub encoder_type: u32,
    /// The CRTC currently driving the encoder; zero when unset.
    pub crtc_id: u32,
    /// Bitmask of CRTCs this encoder could be driven by.
    pub possible_crtcs: u32,
    /// Bitmask of encoders this one could be cloned with.
    pub possible_clones: u32,
}

/// Display timing record, immutable once read from hardware.
#[derive(Clone, Copy, Debug)]
pub struct DRMModeModeinfo {
    /// Pixel clock in kHz.
    pub clock: u32,
    /// Horizontal display size.
    pub hdisplay: u16,
    /// Horizontal sync start.
    pub hsync_start: u16,
    /// Horizontal sync end.
    pub hsync_end: u16,
    /// Horizontal total size.
    pub htotal: u16,
    /// Horizontal skew.
    pub hskew: u16,
    /// Vertical display size.
    pub vdisplay: u16,
    /// Vertical sync start.
    pub vsync_start: u16,
    /// Vertical sync end.
    pub vsync_end: u16,
    /// Vertical total size.
    pub vtotal: u16,
    /// Vertical scan.
    pub vscan: u16,
    /// Approximate vertical refresh rate in Hz.
    pub vrefresh: u32,
    /// Bitmask of misc. flags.
    pub flags: u32,
    /// Bitmask of type flags.
    pub type_: u32,
    /// String describing the mode resolution.
    pub name: [u8; 32],
}

/// Fixed-layout record of the kernel's "get connector" command. The pointer
/// fields designate caller-owned buffers; on the first, sizing query they are
/// left at zero and the kernel only reports the counts.
#[derive(Clone, Copy, Debug)]
pub struct DRMModeGetConnector {
    /// Pointer to array of object IDs.
    pub encoders_ptr: u64,
    /// Pointer to the mode-record array.
    pub modes_ptr: u64,
    /// Pointer to array of property IDs.
    pub props_ptr: u64,
    /// Pointer to array of property values.
    pub prop_values_ptr: u64,
    /// Number of modes.
    pub count_modes: u32,
    /// Number of properties.
    pub count_props: u32,
    /// Number of encoders.
    pub count_encoders: u32,
    /// Object ID of the current encoder.
    pub encoder_id: u32,
    /// Object ID of the connector.
    pub connector_id: u32,
    /// Type of the connector.
    pub connector_type: u32,
    /// Type-specific connector number.
    pub connector_type_id: u32,
    /// Status of the connector.
    pub connection: u32,
    /// Width of the connected sink in millimeters.
    pub mm_width: u32,
    /// Height of the connected sink in millimeters.
    pub mm_height: u32,
    /// Subpixel order of the connected sink.
    pub subpixel: u32,
    /// Padding, must be zero.
    pub pad: u32,
}

/// The arrays the kernel copied out on the second, filling query of a
/// connector, together with the counts it reported then.
pub struct ConnectorData {
    /// Number of encoders reported by the filling query.
    pub count_encoders: u32,
    /// Number of modes reported by the filling query.
    pub count_modes: u32,
    /// Number of properties reported by the filling query.
    pub count_props: u32,
    /// The encoder IDs.
    pub encoders: Vec<u32>,
    /// The display modes.
    pub modes: Vec<DRMModeModeinfo>,
    /// The property IDs.
    pub props: Vec<u32>,
    /// The property values, parallel to `props`.
    pub prop_values: Vec<u64>,
}

/// Outcome of the two kernel queries for one connector, as the surrounding
/// program observed them. `None` stands for a query that failed or that was
/// never issued.
pub struct ConnectorQuery {
    /// The sizing query's record, if that call succeeded.
    pub first: Option<DRMModeGetConnector>,
    /// The filling query's arrays, if that call was issued and succeeded.
    pub second: Option<ConnectorData>,
}

/// Binding state of a connector: either no CRTC currently drives it, or one
/// does, with a framebuffer and a mode.
#[derive(Clone, Copy, Debug)]
pub enum ConnectorState {
    /// The connector has no active CRTC: a valid steady state.
    NoCrtc,
    /// A CRTC drives the connector with the given framebuffer and mode.
    Bound {
        /// The driving CRTC.
        crtc_id: u32,
        /// The framebuffer being scanned out.
        fb_id: u32,
        /// The bound display mode.
        mode: DRMModeModeinfo,
    },
}

/// An explicit failure of an output operation.
#[derive(Clone, Copy, Debug, PartialEq, Eq, Structural)]
pub enum OutputError {
    /// The requested mode is not among the connector's discovered modes.
    UnknownMode,
    /// The kernel refused to commit the requested mode.
    ModeRejected,
    /// The operation needs a bound CRTC and the connector has none.
    NotBound,
}

/// Result of interpreting a connector's two-phase query.
pub enum ConnectorLoad {
    /// A query failed or a count was zero: nothing is attached. Not an
    /// error; the connector is skipped.
    Unusable,
    /// The counts changed between the two queries (hotplug): the read must
    /// be retried, never silently truncated.
    Transient,
    /// A consistent snapshot was read.
    Loaded(DRIConnector),
}

/// A sizing query reports a usable connector only if it carries at least one
/// encoder, one mode and one property.
pub open spec fn counts_usable(f: DRMModeGetConnector) -> bool {
    f.count_encoders > 0 && f.count_modes > 0 && f.count_props > 0
}

/// The filling query confirmed the sizing query's counts and delivered
/// arrays of exactly those lengths.
pub open spec fn data_consistent(f: DRMModeGetConnector, d: ConnectorData) -> bool {
    &&& d.count_encoders == f.count_encoders
    &&& d.count_modes == f.count_modes
    &&& d.count_props == f.count_props
    &&& d.encoders@.len() == f.count_encoders
    &&& d.modes@.len() == f.count_modes
    &&& d.props@.len() == f.count_props
    &&& d.prop_values@.len() == f.count_props
}

/// The connector snapshot `c` is exactly what the queries `f` and `d`
/// reported, with no CRTC bound yet.
pub open spec fn conn_matches(c: DRIConnector, f: DRMModeGetConnector, d: ConnectorData) -> bool {
    &&& c.mm_width == f.mm_width
    &&& c.mm_height == f.mm_height
    &&& c.encoder_id == f.encoder_id
    &&& c.encoders@ == d.encoders@
    &&& c.modes@ == d.modes@
    &&& c.props@ == d.props@
    &&& c.prop_values@ == d.prop_values@
    &&& c.state is NoCrtc
}

/// Whether a two-phase query read a usable, consistent snapshot.
pub open spec fn loads_ok(q: ConnectorQuery) -> bool {
    match (q.first, q.second) {
        (Some(f), Some(d)) => counts_usable(f) && data_consistent(f, d),
        _ => false,
    }
}

/// The connector snapshot `c` is exactly what the query `q` reported.
pub open spec fn query_conn_matches(c: DRIConnector, q: ConnectorQuery) -> bool {
    match (q.first, q.second) {
        (Some(f), Some(d)) => conn_matches(c, f, d),
        _ => false,
    }
}

/// The subsequence of queries that read a usable, consistent snapshot.
pub open spec fn usable_queries(s: Seq<ConnectorQuery>) -> Seq<ConnectorQuery> {
    s.filter(|q: ConnectorQuery| loads_ok(q))
}

/// Whether `m` and `n` describe the same display timing.
pub open spec fn mode_matches(m: DRMModeModeinfo, n: DRMModeModeinfo) -> bool {
    &&& m.clock == n.clock
    &&& m.hdisplay == n.hdisplay
    &&& m.hsync_start == n.hsync_start
    &&& m.hsync_end == n.hsync_end
    &&& m.htotal == n.htotal
    &&& m.hskew == n.hskew
    &&& m.vdisplay == n.vdisplay
    &&& m.vsync_start == n.vsync_start
    &&& m.vsync_end == n.vsync_end
    &&& m.vtotal == n.vtotal
    &&& m.vscan == n.vscan
    &&& m.vrefresh == n.vrefresh
    &&& m.flags == n.flags
    &&& m.type_ == n.type_
    &&& m.name@ == n.name@
}

/// Whether `m` is a member of the discovered mode list `modes`.
pub open spec fn mode_in_list(modes: Seq<DRMModeModeinfo>, m: DRMModeModeinfo) -> bool {
    exists|i: int| 0 <= i < modes.len() && mode_matches(modes[i], m)
}

/// Compares two display timing records field by field.
pub fn mode_eq(a: &DRMModeModeinfo, b: &DRMModeModeinfo) -> (r: bool)
    ensures
        r == mode_matches(*a, *b),
{
    if a.clock != b.clock || a.hdisplay != b.hdisplay || a.hsync_start != b.hsync_start
        || a.hsync_end != b.hsync_end || a.htotal != b.htotal || a.hskew != b.hskew
        || a.vdisplay != b.vdisplay || a.vsync_start != b.vsync_start || a.vsync_end
        != b.vsync_end || a.vtotal != b.vtotal || a.vscan != b.vscan || a.vrefresh != b.vrefresh
        || a.flags != b.flags || a.type_ != b.type_ {
        return false;
    }
    let mut i: usize = 0;
    while i < 32
        invariant
            i <= 32,
            forall|j: int| 0 <= j < i ==> a.name@[j] == b.name@[j],
        decreases 32 - i,
    {
        if a.name[i] != b.name[i] {
            return false;
        }
        i += 1;
    }
    proof {
        assert(a.name@ =~= b.name@);
    }
    true
}

/// Structure representing a connector: a snapshot of one physical display
/// output, read from the kernel, plus its binding state.
#[derive(Debug)]
pub struct DRIConnector {
    /// Width of the connected sink in millimeters.
    pub mm_width: u32,
    /// Height of the connected sink in millimeters.
    pub mm_height: u32,
    /// The ID of the connector's encoder.
    pub encoder_id: u32,
    /// List of encoders.
    pub encoders: Vec<u32>,
    /// List of modes.
    pub modes: Vec<DRMModeModeinfo>,
    /// List of props.
    pub props: Vec<u32>,
    /// List of prop values.
    pub prop_values: Vec<u64>,
    /// The connector's binding state.
    pub state: ConnectorState,
}

impl DRIConnector {
    /// Interprets the two-phase query of one connector. A failed query or a
    /// zero count means nothing usable is attached; counts that changed
    /// between the phases demand a retry; otherwise the snapshot is built
    /// exactly from what the kernel reported.
    pub fn load(query: ConnectorQuery) -> (r: ConnectorLoad)
        ensures
            query.first is None ==> r is Unusable,
            query.first matches Some(f) ==> match query.second {
                Option::None => r is Unusable,
                Option::Some(d) => if !counts_usable(f) {
                    r is Unusable
                } else if !data_consistent(f, d) {
                    r is Transient
                } else {
                    r matches ConnectorLoad::Loaded(c) && conn_matches(c, f, d)
                },
            },
            r matches ConnectorLoad::Loaded(c) ==> loads_ok(query) && query_conn_matches(c, query),
    {
        let first = match query.first {
            Some(f) => f,
            None => {
                return ConnectorLoad::Unusable;
            },
        };
        if first.count_encoders == 0 || first.count_modes == 0 || first.count_props == 0 {
            return ConnectorLoad::Unusable;
        }
        let data = match query.second {
            Some(d) => d,
            None => {
                return ConnectorLoad::Unusable;
            },
        };
        if data.count_encoders != first.count_encoders || data.count_modes != first.count_modes
            || data.count_props != first.count_props || data.encoders.len()
            != first.count_encoders as usize || data.modes.len() != first.count_modes as usize
            || data.props.len() != first.count_props as usize || data.prop_values.len()
            != first.count_props as usize {
            return ConnectorLoad::Transient;
        }
        ConnectorLoad::Loaded(
            DRIConnector {
                mm_width: first.mm_width,
                mm_height: first.mm_height,
                encoder_id: first.encoder_id,
                encoders: data.encoders,
                modes: data.modes,
                props: data.props,
                prop_values: data.prop_values,
                state: ConnectorState::NoCrtc,
            },
        )
    }

    /// Builds the connector snapshots from the query outcomes of every
    /// candidate connector of a card, keeping exactly those that read a
    /// usable, consistent snapshot, in order.
    pub fn scan(queries: Vec<ConnectorQuery>) -> (r: Vec<DRIConnector>)
        ensures
            r@.len() == usable_queries(queries@).len(),
            forall|i: int|
                0 <= i < r@.len() ==> query_conn_matches(
                    #[trigger] r@[i],
                    usable_queries(queries@)[i],
                ),
    {
        let ghost all = queries@;
        let mut rest = queries;
        let mut connectors: Vec<DRIConnector> = Vec::new();
        proof {
            assert(rest@ =~= all.skip(0));
            assert(usable_queries(all.take(0)) =~= Seq::<ConnectorQuery>::empty());
        }
        while rest.len() > 0
            invariant
                rest@ =~= all.skip(all.len() - rest@.len()),
                rest@.len() <= all.len(),
                connectors@.len() == usable_queries(all.take(all.len() - rest@.len())).len(),
                forall|i: int|
                    0 <= i < connectors@.len() ==> query_conn_matches(
                        #[trigger] connectors@[i],
                        usable_queries(all.take(all.len() - rest@.len()))[i],
                    ),
            decreases rest@.len(),
        {
            let ghost j = all.len() - rest@.len();
            let query = rest.remove(0);
            proof {
                assert(query == all[j]);
                assert(rest@ =~= all.skip(j + 1));
                assert(all.take(j + 1).drop_last() =~= all.take(j));
                assert(all.take(j + 1).last() == all[j]);
            }
            match Self::load(query) {
                ConnectorLoad::Loaded(conn) => {
                    connectors.push(conn);
                },
                _ => {
                    proof {
                        assert(!loads_ok(all[j]));
                    }
                },
            }
            proof {
                reveal_with_fuel(Seq::<ConnectorQuery>::filter, 2);
                let taken = all.take(j + 1);
                assert(taken.drop_last() == all.take(j));
                assert(taken.last() == all[j]);
                if loads_ok(all[j]) {
                    assert(usable_queries(taken) =~= usable_queries(all.take(j)).push(all[j]));
                } else {
                    assert(usable_queries(taken) =~= usable_queries(all.take(j)));
                }
            }
        }
        proof {
            assert(all.take(all.len() as int) =~= all);
        }
        connectors
    }

    /// Resolves the connector's CRTC from the outcomes of the two chained
    /// kernel lookups: the encoder named by the connector, then the CRTC
    /// named by that encoder. Either step failing, or an unset CRTC id,
    /// means the connector currently has no active CRTC — a valid steady
    /// state, not an error.
    pub fn get_crtc(
        &self,
        encoder: Option<&DRMModeEncoder>,
        crtc: Option<&DRMModeCRTC>,
    ) -> (r: Option<DRMModeCRTC>)
        requires
            encoder matches Some(e) ==> e.encoder_id == self.encoder_id,
            crtc is Some ==> encoder is Some,
            (match (encoder, crtc) {
                (Some(e), Some(c)) => c.crtc_id == e.crtc_id,
                _ => true,
            }),
        ensures
            encoder is None ==> r is None,
            encoder matches Some(e) ==> (if e.crtc_id == 0 {
                r is None
            } else {
                match crtc {
                    Option::None => r is None,
                    Option::Some(c) => r == Some(*c),
                }
            }),
    {
        let enc = match encoder {
            Some(e) => e,
            None => {
                return None;
            },
        };
        if enc.crtc_id == 0 {
            return None;
        }
        match crtc {
            Some(c) => Some(*c),
            None => None,
        }
    }

    /// Validates that `mode` is among the connector's discovered modes and,
    /// if so, builds the record that atomically binds connector, CRTC,
    /// framebuffer and mode when submitted to the kernel. A mode the
    /// connector never reported is refused without any kernel call.
    pub fn set_mode(&self, crtc_id: u32, fb_id: u32, mode: &DRMModeModeinfo) -> (r: Result<
        DRMModeCRTC,
        OutputError,
    >)
        ensures
            mode_in_list(self.modes@, *mode) ==> r == Ok::<DRMModeCRTC, OutputError>(
                DRMModeCRTC {
                    set_connectors_ptr: 0,
                    count_connectors: 0,
                    crtc_id,
                    fb_id,
                    x: 0,
                    y: 0,
                    gamma_size: 0,
                    mode_valid: 1,
                    mode: *mode,
                },
            ),
            !mode_in_list(self.modes@, *mode) ==> r == Err::<DRMModeCRTC, OutputError>(
                OutputError::UnknownMode,
            ),
    {
        let n = self.modes.len();
        let mut i: usize = 0;
        while i < n
            invariant
                n == self.modes@.len(),
                i <= n,
                forall|j: int| 0 <= j < i ==> !mode_matches(self.modes@[j], *mode),
            decreases n - i,
        {
            if mode_eq(&self.modes[i], mode) {
                return Ok(
                    DRMModeCRTC {
                        set_connectors_ptr: 0,
                        count_connectors: 0,
                        crtc_id,
                        fb_id,
                        x: 0,
                        y: 0,
                        gamma_size: 0,
                        mode_valid: 1,
                        mode: *mode,
                    },
                );
            }
            i += 1;
        }
        Err(OutputError::UnknownMode)
    }

    /// Records the outcome of the synchronous mode-set commit built by
    /// [`Self::set_mode`]. A confirmed commit binds the connector to the
    /// CRTC, framebuffer and mode; a refused one leaves the connector
    /// unchanged and is reported as a distinguishable rejection.
    pub fn commit_mode(
        &mut self,
        crtc_id: u32,
        fb_id: u32,
        mode: &DRMModeModeinfo,
        confirmed: bool,
    ) -> (r: Result<(), OutputError>)
        ensures
            confirmed ==> {
                &&& r == Ok::<(), OutputError>(())
                &&& final(self).state == (ConnectorState::Bound { crtc_id, fb_id, mode: *mode })
                &&& final(self).mm_width == old(self).mm_width
                &&& final(self).mm_height == old(self).mm_height
                &&& final(self).encoder_id == old(self).encoder_id
                &&& final(self).encoders@ == old(self).encoders@
                &&& final(self).modes@ == old(self).modes@
                &&& final(self).props@ == old(self).props@
                &&& final(self).prop_values@ == old(self).prop_values@
            },
            !confirmed ==> r == Err::<(), OutputError>(OutputError::ModeRejected) && *final(self)
                == *old(self),
    {
        if !confirmed {
            return Err(OutputError::ModeRejected);
        }
        self.state = ConnectorState::Bound { crtc_id, fb_id, mode: *mode };
        Ok(())
    }

    /// Builds the page-flip command that swaps the bound framebuffer for
    /// `fb_id` without tearing, requesting a completion event. A flip is
    /// only legal while a CRTC is bound: with no CRTC the call fails
    /// explicitly and no command record is produced.
    pub fn page_flip(&self, fb_id: u32) -> (r: Result<DRMModeCRTCPageFlip, OutputError>)
        ensures
            self.state is NoCrtc ==> r == Err::<DRMModeCRTCPageFlip, OutputError>(
                OutputError::NotBound,
            ),
            self.state matches ConnectorState::Bound { crtc_id, .. } ==> r == Ok::<
                DRMModeCRTCPageFlip,
                OutputError,
            >(
                DRMModeCRTCPageFlip {
                    crtc_id,
                    fb_id,
                    flags: DRM_MODE_PAGE_FLIP_EVENT,
                    reserved: 0,
                    user_data: 0,
                },
            ),
    {
        match self.state {
            ConnectorState::NoCrtc => Err(OutputError::NotBound),
            ConnectorState::Bound { crtc_id, .. } => Ok(
                DRMModeCRTCPageFlip {
                    crtc_id,
                    fb_id,
                    flags: DRM_MODE_PAGE_FLIP_EVENT,
                    reserved: 0,
                    user_data: 0,
                },
            ),
        }
    }
}

} // verus!
