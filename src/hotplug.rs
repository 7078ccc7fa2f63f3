//! Registry of hot-plug interests. The callbacks themselves live with the
//! host's notification thread; this registry decides which of them a
//! notification reaches, and that the thread is started once.
use vstd::prelude::*;

verus! {

/// USB usage page and usage of the primary mouse interface (generic desktop,
/// mouse). Notifications from other interfaces of the composite device are
/// ignored.
pub const USAGE_PAGE_GENERIC_DESKTOP: u32 = 0x01;

pub const USAGE_MOUSE: u32 = 0x02;

#[derive(Debug, Clone, Copy, PartialEq, Eq, Structural)]
pub enum HotplugKind {
    Connected,
    Disconnected,
}

/// One registered interest; `callback` names the host's callback.
#[derive(Debug, Clone, Copy, PartialEq, Eq)]
pub struct Registration {
    pub vendor_id: u16,
    pub product_id: u16,
    pub kind: HotplugKind,
    pub callback: usize,
}

pub open spec fn reaches(reg: Registration, vendor_id: u16, product_id: u16, kind: HotplugKind) -> bool {
    reg.vendor_id == vendor_id && reg.product_id == product_id && reg.kind == kind
}

/// Callbacks, in registration order, of the registrations a notification
/// reaches.
pub open spec fn reached_callbacks(regs: Seq<Registration>, vendor_id: u16, product_id: u16, kind: HotplugKind) -> Seq<usize>
    decreases regs.len(),
{
    if regs.len() == 0 {
        Seq::empty()
    } else {
        let before = reached_callbacks(regs.drop_last(), vendor_id, product_id, kind);
        if reaches(regs.last(), vendor_id, product_id, kind) {
            before.push(regs.last().callback)
        } else {
            before
        }
    }
}

/// A notification comes from the primary mouse interface.
pub fn is_primary_mouse_interface(usage_page: u32, usage: u32) -> (r: bool)
    ensures
        r == (usage_page == 0x01 && usage == 0x02),
{
    usage_page == USAGE_PAGE_GENERIC_DESKTOP && usage == USAGE_MOUSE
}

pub struct HotplugRegistry {
    pub registrations: Vec<Registration>,
    pub listener_started: bool,
}

impl HotplugRegistry {
    pub fn new() -> (r: Self)
        ensures
            r.registrations@.len() == 0,
            !r.listener_started,
    {
        HotplugRegistry { registrations: Vec::new(), listener_started: false }
    }

    /// Appends a registration; it is never removed.
    pub fn register(&mut self, vendor_id: u16, product_id: u16, kind: HotplugKind, callback: usize)
        ensures
            final(self).registrations@ == old(self).registrations@.push(
                Registration { vendor_id, product_id, kind, callback },
            ),
            final(self).listener_started == old(self).listener_started,
    {
        self.registrations.push(Registration { vendor_id, product_id, kind, callback });
    }

    /// Removes every registration of `callback`; the others keep their
    /// order.
    pub fn unregister(&mut self, callback: usize)
        ensures
            final(self).registrations@ == old(self).registrations@.filter(
                |reg: Registration| reg.callback != callback,
            ),
            final(self).listener_started == old(self).listener_started,
    {
        let ghost regs = self.registrations@;
        let mut kept: Vec<Registration> = Vec::new();
        let mut i: usize = 0;
        while i < self.registrations.len()
            invariant
                regs == self.registrations@,
                i <= regs.len(),
                kept@ == regs.subrange(0, i as int).filter(|reg: Registration| reg.callback != callback),
            decreases regs.len() - i,
        {
            let reg = self.registrations[i];
            proof {
                reveal(Seq::filter);
                assert(regs.subrange(0, i + 1).drop_last() =~= regs.subrange(0, i as int));
            }
            if reg.callback != callback {
                kept.push(reg);
            }
            i = i + 1;
        }
        assert(regs.subrange(0, i as int) =~= regs);
        self.registrations = kept;
    }

    /// True exactly once: for the first caller, who then starts the
    /// notification thread.
    pub fn claim_listener_start(&mut self) -> (r: bool)
        ensures
            r == !old(self).listener_started,
            final(self).listener_started,
            final(self).registrations@ == old(self).registrations@,
    {
        if self.listener_started {
            false
        } else {
            self.listener_started = true;
            true
        }
    }

    /// The callbacks a notification of `kind` from the primary interface of
    /// this device reaches, in registration order; none for another
    /// interface.
    pub fn callbacks_for(
        &self,
        vendor_id: u16,
        product_id: u16,
        kind: HotplugKind,
        usage_page: u32,
        usage: u32,
    ) -> (r: Vec<usize>)
        ensures
            !(usage_page == 0x01 && usage == 0x02) ==> r@.len() == 0,
            usage_page == 0x01 && usage == 0x02 ==> r@ == reached_callbacks(
                self.registrations@,
                vendor_id,
                product_id,
                kind,
            ),
    {
        let mut out: Vec<usize> = Vec::new();
        if !is_primary_mouse_interface(usage_page, usage) {
            return out;
        }
        let mut i: usize = 0;
        while i < self.registrations.len()
            invariant
                i <= self.registrations@.len(),
                out@ == reached_callbacks(self.registrations@.subrange(0, i as int), vendor_id, product_id, kind),
            decreases self.registrations@.len() - i,
        {
            let reg = self.registrations[i];
            assert(self.registrations@.subrange(0, i + 1).drop_last() =~= self.registrations@.subrange(0, i as int));
            if reg.vendor_id == vendor_id && reg.product_id == product_id && reg.kind == kind {
                out.push(reg.callback);
            }
            i = i + 1;
        }
        assert(self.registrations@.subrange(0, i as int) =~= self.registrations@);
        out
    }
}

pub open spec fn presence_change(was_present: bool, now_present: bool) -> Option<HotplugKind> {
    if was_present == now_present {
        None
    } else if now_present {
        Some(HotplugKind::Connected)
    } else {
        Some(HotplugKind::Disconnected)
    }
}

/// Turns successive presence checks of one device into connect and
/// disconnect notifications, one per change.
pub struct PresenceTracker {
    pub present: bool,
}

impl PresenceTracker {
    pub fn new(present: bool) -> (r: Self)
        ensures
            r.present == present,
    {
        PresenceTracker { present }
    }

    /// Records whether the device is present now and returns the
    /// notification the change causes, if any.
    pub fn observe(&mut self, now_present: bool) -> (r: Option<HotplugKind>)
        ensures
            final(self).present == now_present,
            r == presence_change(old(self).present, now_present),
    {
        let change = if self.present == now_present {
            None
        } else if now_present {
            Some(HotplugKind::Connected)
        } else {
            Some(HotplugKind::Disconnected)
        };
        self.present = now_present;
        change
    }
}

} // verus!
