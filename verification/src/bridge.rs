//! The user-interface bridge: the service URL, and the one-shot navigation
//! that the ready signal brings about.

use vstd::prelude::*;
use vstd::string::*;
use crate::config::PORT;
use crate::text::{decimal, decimal_digits};

verus! {

/// The URL of the service on `port`.
pub open spec fn server_url_text(port: u16) -> Seq<char> {
    "http://127.0.0.1:"@ + decimal_digits(port as nat)
}

/// The script that sends a web view to `url`.
pub open spec fn navigation_script_text(url: Seq<char>) -> Seq<char> {
    "window.location.href = '"@ + url + "'"@
}

/// The URL of the service on `port`. It is computed from the port alone:
/// nothing is probed.
pub fn server_url(port: u16) -> (url: String)
    ensures
        url@ == server_url_text(port),
{
    let mut url = String::from_str("http://127.0.0.1:");
    let numeral = decimal(port as u64);
    url.append(numeral.as_str());
    url
}

/// The URL of the service on its fixed port.
pub fn get_server_url() -> (url: String)
    ensures
        url@ == server_url_text(PORT),
        url@ == "http://127.0.0.1:3947"@,
{
    proof {
        lemma_fixed_server_url();
    }
    server_url(PORT)
}

/// The script that sends a web view to `url`.
pub fn navigation_script(url: &str) -> (script: String)
    ensures
        script@ == navigation_script_text(url@),
{
    let mut script = String::from_str("window.location.href = '");
    script.append(url);
    script.append("'");
    script
}

/// On the fixed port the service URL is `http://127.0.0.1:3947`.
pub proof fn lemma_fixed_server_url()
    ensures
        server_url_text(PORT) == "http://127.0.0.1:3947"@,
{
    reveal_with_fuel(decimal_digits, 5);
    reveal_strlit("http://127.0.0.1:");
    reveal_strlit("http://127.0.0.1:3947");
    assert(decimal_digits(3947) =~= seq!['3', '9', '4', '7']);
    assert(server_url_text(PORT) =~= "http://127.0.0.1:3947"@);
}

/// The bridge as a mathematical value.
pub struct UiBridgeView {
    pub port: u16,
    pub navigated: bool,
}

/// What a delivery of the ready signal does: the first one marks the bridge
/// as navigated and yields the URL to navigate to; every later one changes
/// nothing and yields nothing.
pub open spec fn on_ready_model(v: UiBridgeView) -> (UiBridgeView, Option<Seq<char>>) {
    if v.navigated {
        (v, None)
    } else {
        (UiBridgeView { navigated: true, ..v }, Some(server_url_text(v.port)))
    }
}

/// The number of navigations that `deliveries` ready signals in a row bring
/// about.
pub open spec fn navigations(v: UiBridgeView, deliveries: nat) -> nat
    decreases deliveries,
{
    if deliveries == 0 {
        0
    } else {
        let (next, target) = on_ready_model(v);
        let here: nat = if target is Some {
            1
        } else {
            0
        };
        here + navigations(next, (deliveries - 1) as nat)
    }
}

/// The receiving end of the ready signal.
#[derive(Debug)]
pub struct UiBridge {
    port: u16,
    navigated: bool,
}

impl View for UiBridge {
    type V = UiBridgeView;

    closed spec fn view(&self) -> UiBridgeView {
        UiBridgeView { port: self.port, navigated: self.navigated }
    }
}

impl UiBridge {
    /// A bridge for the service on `port` that has not navigated yet.
    pub fn new(port: u16) -> (bridge: Self)
        ensures
            bridge@ == (UiBridgeView { port, navigated: false }),
    {
        UiBridge { port, navigated: false }
    }

    /// The URL of the service.
    pub fn server_url(&self) -> (url: String)
        ensures
            url@ == server_url_text(self@.port),
    {
        server_url(self.port)
    }

    /// Whether the navigation has been issued.
    pub fn has_navigated(&self) -> (navigated: bool)
        ensures
            navigated == self@.navigated,
    {
        self.navigated
    }

    /// Receives the ready signal. The first delivery returns the URL to
    /// navigate to; any further delivery is a no-op and returns `None`.
    pub fn on_ready(&mut self) -> (target: Option<String>)
        ensures
            final(self)@ == on_ready_model(old(self)@).0,
            target is Some <==> on_ready_model(old(self)@).1 is Some,
            target matches Some(url) ==> Some(url@) == on_ready_model(old(self)@).1,
    {
        if self.navigated {
            None
        } else {
            self.navigated = true;
            Some(server_url(self.port))
        }
    }
}

/// However often the ready signal is delivered, the navigation is issued at
/// most once: once if the bridge had not navigated and a signal came, and
/// not at all otherwise.
pub proof fn lemma_navigation_fires_at_most_once(v: UiBridgeView, deliveries: nat)
    ensures
        navigations(v, deliveries) == if deliveries > 0 && !v.navigated {
            1nat
        } else {
            0nat
        },
    decreases deliveries,
{
    if deliveries > 0 {
        lemma_navigation_fires_at_most_once(on_ready_model(v).0, (deliveries - 1) as nat);
    }
}

} // verus!
