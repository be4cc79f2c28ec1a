use vstd::prelude::*;

verus! {

/// A window size in logical pixels: width, then height.
pub type WindowSize = (u32, u32);

/// What the editor state holds, as plain values.
pub struct EditorModel<F> {
    /// The size the editor window has (or is about to have).
    pub size: WindowSize,
    /// A size asked for by the resize handles that the editor loop has not taken yet.
    pub requested: Option<WindowSize>,
    /// Whether the editor window is open.
    pub open: bool,
    /// The window size when the current drag of a resize handle began.
    pub drag_start: Option<WindowSize>,
    /// The scale factor the host set, if any.
    pub scale_factor: Option<F>,
}

/// The state that the editor shares with the host and with the resize handles:
/// the window size, a pending resize request, whether the window is open, the size
/// at the start of a resize drag, and the host's scale factor (of type `F`).
pub struct EditorState<F> {
    size: WindowSize,
    requested_size: Option<WindowSize>,
    open: bool,
    resize_drag_start_size: Option<WindowSize>,
    scaling_factor: Option<F>,
}

/// A resize that the editor loop has applied tentatively while it asks the host
/// whether the window may change size.
#[derive(Clone, Copy, Debug)]
pub struct PendingResize {
    /// The size being asked for.
    pub new_size: WindowSize,
    /// The size the window had before, restored if the host refuses.
    pub old_size: WindowSize,
}

impl<F> EditorModel<F> {
    /// The state after a resize request for `new_size`.
    pub open spec fn requesting(self, new_size: WindowSize) -> Self {
        EditorModel { requested: Some(new_size), ..self }
    }

    /// The state after the window size was restored from saved plugin state.
    pub open spec fn with_size(self, size: WindowSize) -> Self {
        EditorModel { size: size, ..self }
    }

    /// The state after the window was opened or closed.
    pub open spec fn with_open(self, open: bool) -> Self {
        EditorModel { open: open, ..self }
    }

    /// The size reported to the host: a pending request first, else the current size.
    pub open spec fn reported_size(self) -> WindowSize {
        match self.requested {
            Some(requested) => requested,
            None => self.size,
        }
    }

    /// Whether the host may set the scale factor: only while the window is closed.
    pub open spec fn accepts_scale_factor(self) -> bool {
        !self.open
    }

    /// The state after the host tried to set the scale factor.
    pub open spec fn scale_factor_set(self, factor: F) -> Self {
        if self.accepts_scale_factor() {
            EditorModel { scale_factor: Some(factor), ..self }
        } else {
            self
        }
    }

    /// The resize that the editor loop takes up, if a request is pending.
    pub open spec fn pending_resize(self) -> Option<PendingResize> {
        match self.requested {
            Some(new_size) => Some(PendingResize { new_size, old_size: self.size }),
            None => None,
        }
    }

    /// The state once the editor loop took the pending request: the window has the
    /// requested size while the host is asked, and no request is pending.
    pub open spec fn resize_taken(self) -> Self {
        match self.requested {
            Some(new_size) => EditorModel { size: new_size, requested: None, ..self },
            None => self,
        }
    }

    /// The state once the host answered: a refusal brings the old size back.
    pub open spec fn resize_finished(self, pending: PendingResize, host_accepted: bool) -> Self {
        if host_accepted {
            self
        } else {
            EditorModel { size: pending.old_size, ..self }
        }
    }

    /// The state after a resize handle began to be dragged.
    pub open spec fn drag_started(self) -> Self {
        EditorModel { drag_start: Some(self.size), ..self }
    }

    /// The size a drag of a resize handle is measured from.
    pub open spec fn drag_base(self) -> WindowSize {
        match self.drag_start {
            Some(start) => start,
            None => self.size,
        }
    }

    /// The state after the drag of a resize handle ended.
    pub open spec fn drag_stopped(self) -> Self {
        EditorModel { drag_start: None, ..self }
    }
}

impl<F> View for EditorState<F> {
    type V = EditorModel<F>;

    closed spec fn view(&self) -> EditorModel<F> {
        EditorModel {
            size: self.size,
            requested: self.requested_size,
            open: self.open,
            drag_start: self.resize_drag_start_size,
            scale_factor: self.scaling_factor,
        }
    }
}

impl<F: Copy> EditorState<F> {
    /// A closed editor of the given size, with nothing pending and no scale factor.
    pub fn from_size(width: u32, height: u32) -> (s: Self)
        ensures
            s@.size == (width, height),
            s@.requested is None,
            !s@.open,
            s@.drag_start is None,
            s@.scale_factor is None,
    {
        EditorState {
            size: (width, height),
            requested_size: None,
            open: false,
            resize_drag_start_size: None,
            scaling_factor: None,
        }
    }

    /// The current window size.
    pub fn size(&self) -> (r: WindowSize)
        ensures
            r == self@.size,
    {
        self.size
    }

    /// Whether the editor window is open.
    pub fn is_open(&self) -> (r: bool)
        ensures
            r == self@.open,
    {
        self.open
    }

    /// The pending resize request, if any.
    pub fn requested_size(&self) -> (r: Option<WindowSize>)
        ensures
            r == self@.requested,
    {
        self.requested_size
    }

    /// The scale factor the host set, if any.
    pub fn scaling_factor(&self) -> (r: Option<F>)
        ensures
            r == self@.scale_factor,
    {
        self.scaling_factor
    }

    /// Asks for the window to take a new size; the editor loop picks the request up.
    /// A later request replaces an earlier one that was not taken yet.
    pub fn set_requested_size(&mut self, new_size: WindowSize)
        ensures
            final(self)@ == old(self)@.requesting(new_size),
    {
        self.requested_size = Some(new_size);
    }

    /// Sets the window size, as restoring saved plugin state does.
    pub fn set_size(&mut self, size: WindowSize)
        ensures
            final(self)@ == old(self)@.with_size(size),
            final(self)@.size == size,
            final(self)@.requested == old(self)@.requested,
            final(self)@.open == old(self)@.open,
            final(self)@.drag_start == old(self)@.drag_start,
            final(self)@.scale_factor == old(self)@.scale_factor,
    {
        self.size = size;
    }

    /// Records that the editor window was opened (`true`) or closed (`false`).
    pub fn set_open(&mut self, open: bool)
        ensures
            final(self)@ == old(self)@.with_open(open),
    {
        self.open = open;
    }

    /// The size the editor reports to the host: a pending request if there is one,
    /// since the host asks for it to learn the new size, else the current size.
    pub fn editor_size(&self) -> (r: WindowSize)
        ensures
            r == self@.reported_size(),
    {
        match self.requested_size {
            Some(requested) => requested,
            None => self.size,
        }
    }

    /// The host sets the scale factor. While the window is open it cannot be
    /// changed: the call is refused and nothing changes. Otherwise it is stored.
    pub fn set_scale_factor(&mut self, factor: F) -> (accepted: bool)
        ensures
            accepted == old(self)@.accepts_scale_factor(),
            accepted == !old(self)@.open,
            final(self)@ == old(self)@.scale_factor_set(factor),
            final(self)@.open == old(self)@.open,
            final(self)@.size == old(self)@.size,
            final(self)@.requested == old(self)@.requested,
            final(self)@.drag_start == old(self)@.drag_start,
            final(self)@.scale_factor == (if old(self)@.open {
                old(self)@.scale_factor
            } else {
                Some(factor)
            }),
    {
        if self.open {
            return false;
        }
        self.scaling_factor = Some(factor);
        true
    }

    /// The first half of a resize in the editor loop. With no pending request,
    /// nothing happens. Otherwise the request is taken, the window size is set to
    /// the requested size, and the old size is kept in the result so that
    /// `finish_resize` can restore it if the host refuses.
    pub fn take_requested_resize(&mut self) -> (pending: Option<PendingResize>)
        ensures
            pending == old(self)@.pending_resize(),
            final(self)@ == old(self)@.resize_taken(),
    {
        match self.requested_size {
            None => None,
            Some(new_size) => {
                let old_size = self.size;
                self.size = new_size;
                self.requested_size = None;
                Some(PendingResize { new_size, old_size })
            },
        }
    }

    /// The second half of a resize: if the host refused the new size, the old size
    /// comes back; if it accepted, the new size stays.
    pub fn finish_resize(&mut self, pending: PendingResize, host_accepted: bool)
        ensures
            final(self)@ == old(self)@.resize_finished(pending, host_accepted),
    {
        if !host_accepted {
            self.size = pending.old_size;
        }
    }

    /// A resize handle began to be dragged: the current size is remembered as the
    /// size the drag starts from.
    pub fn start_resize_drag(&mut self)
        ensures
            final(self)@ == old(self)@.drag_started(),
    {
        self.resize_drag_start_size = Some(self.size);
    }

    /// The size a drag of a resize handle is measured from: the size when the drag
    /// began, or the current size when no drag start was recorded.
    pub fn resize_drag_base(&self) -> (r: WindowSize)
        ensures
            r == self@.drag_base(),
            self@.drag_start matches Some(start) ==> r == start,
            self@.drag_start is None ==> r == self@.size,
    {
        match self.resize_drag_start_size {
            Some(start) => start,
            None => self.size,
        }
    }

    /// The drag of a resize handle ended: the remembered start size is dropped.
    pub fn stop_resize_drag(&mut self)
        ensures
            final(self)@ == old(self)@.drag_stopped(),
    {
        self.resize_drag_start_size = None;
    }
}


/// A resize request that the host refuses leaves the window at the size it had,
/// and leaves no request pending; nothing else changes.
pub proof fn lemma_refused_resize_keeps_size<F>(m: EditorModel<F>, new_size: WindowSize)
    ensures
        ({
            let asked = m.requesting(new_size);
            let pending = asked.pending_resize();
            &&& pending == Some(PendingResize { new_size, old_size: m.size })
            &&& asked.resize_taken().resize_finished(pending.unwrap(), false)
                == (EditorModel { requested: None, ..m })
        }),
{
}

/// A resize request that the host accepts gives the window the requested size and
/// leaves no request pending; nothing else changes.
pub proof fn lemma_accepted_resize_applies_request<F>(m: EditorModel<F>, new_size: WindowSize)
    ensures
        ({
            let asked = m.requesting(new_size);
            asked.resize_taken().resize_finished(asked.pending_resize().unwrap(), true)
                == (EditorModel { size: new_size, requested: None, ..m })
        }),
{
}

/// While a request is pending, and while the host is being asked about it, the
/// editor reports the requested size to the host.
pub proof fn lemma_host_sees_requested_size<F>(m: EditorModel<F>, new_size: WindowSize)
    ensures
        m.requesting(new_size).reported_size() == new_size,
        m.requesting(new_size).resize_taken().reported_size() == new_size,
{
}

/// Of two requests made before the editor loop runs, the later one wins.
pub proof fn lemma_later_request_wins<F>(m: EditorModel<F>, first: WindowSize, second: WindowSize)
    ensures
        m.requesting(first).requesting(second) == m.requesting(second),
{
}

/// With no request pending, the editor loop changes nothing.
pub proof fn lemma_no_request_no_resize<F>(m: EditorModel<F>)
    requires
        m.requested is None,
    ensures
        m.pending_resize() is None,
        m.resize_taken() == m,
        m.reported_size() == m.size,
{
}

/// While the window is open the host cannot change the scale factor; once it is
/// closed, the factor the host sets is the one stored.
pub proof fn lemma_scale_factor_only_while_closed<F>(m: EditorModel<F>, factor: F)
    ensures
        !m.with_open(true).accepts_scale_factor(),
        m.with_open(true).scale_factor_set(factor) == m.with_open(true),
        m.with_open(false).accepts_scale_factor(),
        m.with_open(false).scale_factor_set(factor).scale_factor == Some(factor),
{
}

/// A drag of a resize handle is measured from the size the window had when the drag
/// began, however the size changes during the drag (through requests the host accepts
/// or refuses); after the drag ends, the current size is the base again.
pub proof fn lemma_drag_measured_from_start<F>(
    m: EditorModel<F>,
    new_size: WindowSize,
    host_accepted: bool,
)
    ensures
        ({
            let dragging = m.drag_started();
            let asked = dragging.requesting(new_size);
            let after = asked.resize_taken().resize_finished(
                asked.pending_resize().unwrap(),
                host_accepted,
            );
            &&& dragging.drag_base() == m.size
            &&& asked.drag_base() == m.size
            &&& after.drag_base() == m.size
            &&& after.drag_stopped().drag_base() == after.size
        }),
{
}


/// A resize request records exactly the requested size as pending and touches nothing
/// else: not the window size, the open flag, the drag start or the scale factor.
pub proof fn lemma_request_changes_only_request<F>(m: EditorModel<F>, r: WindowSize)
    ensures
        m.requesting(r).requested == Some(r),
        m.requesting(r).size == m.size,
        m.requesting(r).open == m.open,
        m.requesting(r).drag_start == m.drag_start,
        m.requesting(r).scale_factor == m.scale_factor,
{
}

/// Restoring a saved size gives the window exactly that size (both width and height)
/// and touches nothing else; the window then opens at, and reports, the restored size
/// unless a request is pending.
pub proof fn lemma_restored_size_is_kept<F>(m: EditorModel<F>, sz: WindowSize)
    ensures
        m.with_size(sz).size == sz,
        m.with_size(sz).size.0 == sz.0,
        m.with_size(sz).size.1 == sz.1,
        m.with_size(sz).requested == m.requested,
        m.with_size(sz).open == m.open,
        m.with_size(sz).drag_start == m.drag_start,
        m.with_size(sz).scale_factor == m.scale_factor,
        m.requested is None ==> m.with_size(sz).reported_size() == sz,
        m.requested is None ==> m.with_size(sz).with_open(true).reported_size() == sz,
{
}

/// Opening or closing the window sets only the open flag.
pub proof fn lemma_open_flag_changes_only_open<F>(m: EditorModel<F>, open: bool)
    ensures
        m.with_open(open).open == open,
        m.with_open(open).size == m.size,
        m.with_open(open).requested == m.requested,
        m.with_open(open).drag_start == m.drag_start,
        m.with_open(open).scale_factor == m.scale_factor,
{
}

/// The host is told the pending request if there is one, otherwise the window size.
pub proof fn lemma_reported_size<F>(m: EditorModel<F>)
    ensures
        m.requested matches Some(r) ==> m.reported_size() == r,
        m.requested is None ==> m.reported_size() == m.size,
{
}

/// Setting the scale factor changes only the factor, and only while the window is
/// closed: the open flag, the size, the pending request and the drag start stay; a
/// closed editor takes the factor, an open one keeps its old factor.
pub proof fn lemma_scale_factor_changes_only_factor<F>(m: EditorModel<F>, f: F)
    ensures
        m.accepts_scale_factor() == !m.open,
        m.scale_factor_set(f).open == m.open,
        m.scale_factor_set(f).size == m.size,
        m.scale_factor_set(f).requested == m.requested,
        m.scale_factor_set(f).drag_start == m.drag_start,
        !m.open ==> m.scale_factor_set(f).scale_factor == Some(f),
        m.open ==> m.scale_factor_set(f).scale_factor == m.scale_factor,
{
}

/// On a closed editor, two scale factors set one after the other are both accepted,
/// the editor stays closed, and the later factor is the one kept.
pub proof fn lemma_closed_editor_takes_each_factor<F>(m: EditorModel<F>, first: F, second: F)
    requires
        !m.open,
    ensures
        m.accepts_scale_factor(),
        m.scale_factor_set(first).accepts_scale_factor(),
        !m.scale_factor_set(first).scale_factor_set(second).open,
        m.scale_factor_set(first).scale_factor_set(second).scale_factor == Some(second),
{
}

/// Taking a pending request hands out the requested size and the size the window had,
/// gives the window the requested size, clears the request, and keeps the open flag,
/// the drag start and the scale factor.
pub proof fn lemma_take_resize_fields<F>(m: EditorModel<F>, r: WindowSize)
    requires
        m.requested == Some(r),
    ensures
        m.pending_resize() matches Some(p) && p.new_size == r && p.old_size == m.size,
        m.resize_taken().size == r,
        m.resize_taken().requested is None,
        m.resize_taken().open == m.open,
        m.resize_taken().drag_start == m.drag_start,
        m.resize_taken().scale_factor == m.scale_factor,
{
}

/// Settling a resize only ever touches the window size: a refusal puts back the old
/// size, an acceptance keeps the current one.
pub proof fn lemma_finish_resize_fields<F>(m: EditorModel<F>, p: PendingResize, accepted: bool)
    ensures
        m.resize_finished(p, accepted).size == (if accepted { m.size } else { p.old_size }),
        m.resize_finished(p, accepted).requested == m.requested,
        m.resize_finished(p, accepted).open == m.open,
        m.resize_finished(p, accepted).drag_start == m.drag_start,
        m.resize_finished(p, accepted).scale_factor == m.scale_factor,
{
}

/// A drag is measured from its recorded start when there is one, and otherwise from
/// the window's current size, whatever request is pending.
pub proof fn lemma_drag_base_is_start_or_current_size<F>(m: EditorModel<F>, r: WindowSize)
    ensures
        m.drag_start matches Some(start) ==> m.drag_base() == start,
        m.drag_start is None ==> m.drag_base() == m.size,
        m.drag_start is None ==> m.requesting(r).drag_base() == m.size,
        m.drag_started().drag_start == Some(m.size),
        m.drag_started().size == m.size,
        m.drag_started().requested == m.requested,
        m.drag_started().open == m.open,
        m.drag_started().scale_factor == m.scale_factor,
        m.drag_stopped().drag_start is None,
        m.drag_stopped().size == m.size,
        m.drag_stopped().requested == m.requested,
        m.drag_stopped().open == m.open,
        m.drag_stopped().scale_factor == m.scale_factor,
{
}

/// A new editor state has exactly the given size, is closed, and has nothing pending,
/// no drag start and no scale factor; it reports and measures drags from that size.
pub proof fn lemma_fresh_state(w: u32, h: u32)
    ensures
        ({
            let m = EditorModel::<u8> {
                size: (w, h),
                requested: None,
                open: false,
                drag_start: None,
                scale_factor: None,
            };
            &&& m.reported_size() == (w, h)
            &&& m.drag_base() == (w, h)
            &&& m.accepts_scale_factor()
        }),
{
}

} // verus!
