//! Deferred navigation for a control whose native widget is created late.
//!
//! On toolkits that create the native widget only when the control enters a
//! container, a navigation request can arrive before any native engine
//! exists.  The request is then remembered, and replayed once the widget's
//! creation event fires.  An empty address always navigates to the blank
//! page, so a control created without a remembered address still ends up on
//! a well-defined page.

use vstd::prelude::*;

verus! {

/// The address one navigation request resolves to: the blank page for an
/// empty address, the address itself otherwise.
pub open spec fn nav_target(site: Seq<char>) -> Seq<char> {
    if site.len() == 0 {
        "about:blank"@
    } else {
        site
    }
}

/// The address a state remembers: nothing once the native widget exists.
pub open spec fn stored_site(s: NavState) -> Seq<char> {
    match s {
        NavState::Attached => Seq::empty(),
        NavState::Unattached(site) => site@,
    }
}

/// Whether the native widget exists yet, and the address remembered while it
/// does not.
pub enum NavState {
    /// The native widget exists; navigation goes out directly.
    Attached,
    /// No native widget yet; the last requested address is remembered.
    Unattached(String),
}

impl NavState {
    /// The state of a control created without a native widget: nothing
    /// remembered yet.
    pub fn new() -> (r: NavState)
        ensures
            r matches NavState::Unattached(site) && site@ == Seq::<char>::empty(),
    {
        NavState::Unattached(String::new())
    }

    /// Whether the native widget exists.
    pub fn is_attached(&self) -> (r: bool)
        ensures
            r == (self is Attached),
    {
        match self {
            NavState::Attached => true,
            NavState::Unattached(_) => false,
        }
    }

    /// Requests navigation: once the widget exists the address to hand to
    /// the native engine is returned, otherwise the address is remembered,
    /// replacing any earlier one.
    pub fn go_to(&mut self, site: &str) -> (r: Option<String>)
        ensures
            *old(self) is Attached ==> *final(self) is Attached && (r matches Some(url)
                && url@ == nav_target(site@)),
            *old(self) is Unattached ==> (*final(self) matches NavState::Unattached(remembered)
                && remembered@ == site@) && r is None,
    {
        let attached = self.is_attached();
        if attached {
            if site.is_empty() {
                Some(String::from_str("about:blank"))
            } else {
                Some(site.to_owned())
            }
        } else {
            *self = NavState::Unattached(site.to_owned());
            None
        }
    }

    /// Handles the native widget's creation event: the remembered address,
    /// or the blank page when none was remembered, is returned for the
    /// engine to navigate to, and later requests go out directly.
    pub fn on_created(&mut self) -> (r: String)
        ensures
            *final(self) is Attached,
            r@ == nav_target(stored_site(*old(self))),
    {
        let site: String = match self {
            NavState::Attached => String::new(),
            NavState::Unattached(remembered) => remembered.clone(),
        };
        *self = NavState::Attached;
        if site.as_str().is_empty() {
            String::from_str("about:blank")
        } else {
            site
        }
    }
}

} // verus!
