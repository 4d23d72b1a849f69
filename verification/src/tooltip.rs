//! The tooltip overlay of a window: a delay before the first tooltip shows,
//! a grace period after one hides in which the next one shows at once, and
//! timers that only act if nothing happened since they were started.
//!
//! The timers themselves run outside: a request returns the epoch of the
//! timer to start, and the timer reports back with that epoch.

use vstd::prelude::*;

verus! {

/// The state of a tooltip overlay as plain values; `T` is the content of a
/// tooltip (how to build it, and the bounds of what triggered it).
pub struct TooltipModel<T> {
    /// The tooltip shown, if any.
    pub content: Option<T>,
    /// The tooltip shown before a switch, to slide from.
    pub prev_content: Option<T>,
    pub epoch: usize,
    /// A tooltip was hidden a moment ago: the next one shows at once.
    pub had_recent_tooltip: bool,
    pub animation_epoch: usize,
    /// The shown tooltip replaced another one that was visible.
    pub is_switching: bool,
    /// The delayed show that is pending: its epoch and content.
    pub show_task: Option<(usize, T)>,
    /// The hide that is pending: its epoch.
    pub hide_task: Option<usize>,
}

/// The overlay after a request to show `content`: with a tooltip visible or
/// hidden a moment ago, `content` shows at once (switching if one was
/// visible); otherwise a delayed show starts with a new epoch. Any pending
/// hide is cancelled.
pub open spec fn after_request_show<T>(m: TooltipModel<T>, content: T) -> TooltipModel<T> {
    if m.content is Some || m.had_recent_tooltip {
        TooltipModel {
            prev_content: m.content,
            content: Some(content),
            show_task: None,
            hide_task: None,
            is_switching: m.content is Some,
            animation_epoch: (m.animation_epoch + 1) as usize,
            ..m
        }
    } else {
        TooltipModel {
            epoch: (m.epoch + 1) as usize,
            show_task: Some(((m.epoch + 1) as usize, content)),
            hide_task: None,
            ..m
        }
    }
}

/// The overlay when the delayed show of `epoch` is due: it shows its content
/// only if it is still pending and nothing happened since it started.
pub open spec fn after_show_timer<T>(m: TooltipModel<T>, epoch: usize) -> TooltipModel<T> {
    match m.show_task {
        Some((e, content)) => if e == epoch && m.epoch == epoch {
            TooltipModel {
                content: Some(content),
                prev_content: None,
                is_switching: false,
                animation_epoch: (m.animation_epoch + 1) as usize,
                show_task: None,
                ..m
            }
        } else {
            m
        },
        None => m,
    }
}

/// The overlay after a request to hide: a pending show is cancelled; with a
/// tooltip shown, the grace period starts with a new epoch.
pub open spec fn after_request_hide<T>(m: TooltipModel<T>) -> TooltipModel<T> {
    if m.content is None {
        TooltipModel { show_task: None, ..m }
    } else {
        TooltipModel {
            show_task: None,
            epoch: (m.epoch + 1) as usize,
            had_recent_tooltip: true,
            hide_task: Some((m.epoch + 1) as usize),
            ..m
        }
    }
}

/// The overlay when the hide of `epoch` is due: the tooltip goes only if
/// that hide is still pending and nothing happened since it started.
pub open spec fn after_hide_timer<T>(m: TooltipModel<T>, epoch: usize) -> TooltipModel<T> {
    if m.hide_task == Some(epoch) && m.epoch == epoch {
        TooltipModel {
            content: None,
            prev_content: None,
            had_recent_tooltip: false,
            hide_task: None,
            ..m
        }
    } else {
        m
    }
}

/// Manages tooltip lifecycle: delay, grace period and switching.
pub struct TooltipOverlay<T> {
    content: Option<T>,
    prev_content: Option<T>,
    epoch: usize,
    had_recent_tooltip: bool,
    animation_epoch: usize,
    is_switching: bool,
    show_task: Option<(usize, T)>,
    hide_task: Option<usize>,
}

impl<T> View for TooltipOverlay<T> {
    type V = TooltipModel<T>;

    closed spec fn view(&self) -> TooltipModel<T> {
        TooltipModel {
            content: self.content,
            prev_content: self.prev_content,
            epoch: self.epoch,
            had_recent_tooltip: self.had_recent_tooltip,
            animation_epoch: self.animation_epoch,
            is_switching: self.is_switching,
            show_task: self.show_task,
            hide_task: self.hide_task,
        }
    }
}

impl<T> TooltipOverlay<T> {
    pub fn new() -> (o: Self)
        ensures
            o@ == (TooltipModel::<T> {
                content: None,
                prev_content: None,
                epoch: 0,
                had_recent_tooltip: false,
                animation_epoch: 0,
                is_switching: false,
                show_task: None,
                hide_task: None,
            }),
    {
        TooltipOverlay {
            content: None,
            prev_content: None,
            epoch: 0,
            had_recent_tooltip: false,
            animation_epoch: 0,
            is_switching: false,
            show_task: None,
            hide_task: None,
        }
    }

    fn next_epoch(&mut self) -> (e: usize)
        requires
            old(self).epoch < usize::MAX,
        ensures
            e == old(self).epoch + 1,
            *final(self) == (TooltipOverlay::<T> { epoch: e, ..*old(self) }),
    {
        self.epoch += 1;
        self.epoch
    }

    /// Request showing a tooltip. If another tooltip is active or was recently
    /// hidden, it shows immediately; otherwise returns the epoch of the delay
    /// timer to start.
    pub fn request_show(&mut self, content: T) -> (delay: Option<usize>)
        requires
            old(self)@.epoch < usize::MAX,
            old(self)@.animation_epoch < usize::MAX,
        ensures
            final(self)@ == after_request_show(old(self)@, content),
            delay == if old(self)@.content is Some || old(self)@.had_recent_tooltip {
                None
            } else {
                Some((old(self)@.epoch + 1) as usize)
            },
    {
        self.hide_task = None;
        let was_visible = self.content.is_some();
        let in_grace = self.had_recent_tooltip;
        if was_visible || in_grace {
            self.prev_content = self.content.take();
            self.content = Some(content);
            self.show_task = None;
            self.is_switching = was_visible;
            self.animation_epoch += 1;
            None
        } else {
            let epoch = self.next_epoch();
            self.show_task = Some((epoch, content));
            Some(epoch)
        }
    }

    /// The delay timer of `epoch` is due; returns whether the tooltip showed.
    pub fn show_timer_fired(&mut self, epoch: usize) -> (shown: bool)
        requires
            old(self)@.animation_epoch < usize::MAX,
        ensures
            final(self)@ == after_show_timer(old(self)@, epoch),
            shown == (old(self)@.show_task matches Some((e, _)) && e == epoch && old(self)@.epoch
                == epoch),
    {
        let due = match &self.show_task {
            Some((e, _)) => *e == epoch && self.epoch == epoch,
            None => false,
        };
        if !due {
            return false;
        }
        match self.show_task.take() {
            Some((_, content)) => {
                self.content = Some(content);
                self.prev_content = None;
                self.is_switching = false;
                self.animation_epoch += 1;
                true
            },
            None => false,
        }
    }

    /// Request hiding the current tooltip: starts a brief grace period so that
    /// moving to another tooltip-bearing element feels instant. Returns the
    /// epoch of the grace timer to start, if a tooltip is shown.
    pub fn request_hide(&mut self) -> (timer: Option<usize>)
        requires
            old(self)@.epoch < usize::MAX,
        ensures
            final(self)@ == after_request_hide(old(self)@),
            timer == if old(self)@.content is None {
                None
            } else {
                Some((old(self)@.epoch + 1) as usize)
            },
    {
        self.show_task = None;
        if self.content.is_none() {
            return None;
        }
        let epoch = self.next_epoch();
        self.had_recent_tooltip = true;
        self.hide_task = Some(epoch);
        Some(epoch)
    }

    /// The grace timer of `epoch` is due; returns whether the tooltip went.
    pub fn hide_timer_fired(&mut self, epoch: usize) -> (hidden: bool)
        ensures
            final(self)@ == after_hide_timer(old(self)@, epoch),
            hidden == (old(self)@.hide_task == Some(epoch) && old(self)@.epoch == epoch),
    {
        if self.hide_task == Some(epoch) && self.epoch == epoch {
            self.content = None;
            self.prev_content = None;
            self.had_recent_tooltip = false;
            self.hide_task = None;
            return true;
        }
        false
    }

    /// The tooltip shown, if any.
    pub fn content(&self) -> (c: &Option<T>)
        ensures
            *c == self@.content,
    {
        &self.content
    }

    /// The tooltip shown before a switch, if any.
    pub fn prev_content(&self) -> (c: &Option<T>)
        ensures
            *c == self@.prev_content,
    {
        &self.prev_content
    }

    pub fn is_switching(&self) -> (b: bool)
        ensures
            b == self@.is_switching,
    {
        self.is_switching
    }

    pub fn animation_epoch(&self) -> (e: usize)
        ensures
            e == self@.animation_epoch,
    {
        self.animation_epoch
    }
}

/// A hide followed by a show before the grace period ends shows the new
/// tooltip at once, sliding from the old one, and the grace timer then does
/// nothing.
pub proof fn lemma_show_during_grace<T>(m: TooltipModel<T>, content: T)
    requires
        m.content is Some,
        m.epoch < usize::MAX,
    ensures
        ({
            let hidden = after_request_hide(m);
            let shown = after_request_show(hidden, content);
            &&& shown.content == Some(content)
            &&& shown.prev_content == m.content
            &&& shown.is_switching
            &&& after_hide_timer(shown, hidden.hide_task->0) == shown
        }),
{
}

/// A tooltip asked for and left before its delay ends never shows: the
/// delay timer then does nothing.
pub proof fn lemma_leave_before_delay<T>(m: TooltipModel<T>, content: T)
    requires
        m.content is None,
        !m.had_recent_tooltip,
        m.epoch < usize::MAX,
    ensures
        ({
            let asked = after_request_show(m, content);
            let left = after_request_hide(asked);
            &&& asked.content is None
            &&& after_show_timer(left, asked.epoch) == left
            &&& left.content is None
        }),
{
}

/// A timer started before a later request does nothing: each request moves
/// the epoch on or cancels the pending timer.
pub proof fn lemma_stale_timers<T>(m: TooltipModel<T>, epoch: usize)
    requires
        epoch != m.epoch,
    ensures
        after_show_timer(m, epoch) == m,
        after_hide_timer(m, epoch) == m,
{
}

/// Once the grace period is over, the next tooltip waits for its delay again.
pub proof fn lemma_delay_after_grace<T>(m: TooltipModel<T>, content: T)
    requires
        m.content is Some,
        m.epoch < usize::MAX - 1,
    ensures
        ({
            let hidden = after_request_hide(m);
            let gone = after_hide_timer(hidden, hidden.epoch);
            let asked = after_request_show(gone, content);
            &&& gone.content is None
            &&& asked.content is None
            &&& asked.show_task == Some((asked.epoch, content))
        }),
{
}

} // verus!
