//! The deep-link dispatcher: single-instance coordination and URL delivery.
//!
//! On process start the single-instance claim is resolved first
//! ([`decide_launch`]): at most one process holds the claim, a later launch
//! relays its argument list to the holder and exits without a window. The
//! primary instance then runs a [`Dispatcher`], handing it each event the
//! shell observes — its own startup, a scheme callback, a relayed second
//! launch — and performing the returned [`UiAction`] list in order.
//!
//! Every validated delivery is fire-and-forget: a URL that does not carry
//! the registered scheme prefix is silently dropped, and nothing is queued
//! or retried.

use vstd::prelude::*;

use crate::actions::AbsAction;
use crate::actions::Platform;
use crate::actions::UiAction;
use crate::actions::abs_actions;
use crate::scheme::spec_prefix_of;
use crate::scheme::starts_with_prefix;

verus! {

/// The dispatcher's injected configuration: the scheme prefix a candidate
/// URL must carry, the event name deliveries are emitted under, and the
/// global variable the script-injection fallback assigns.
#[derive(Clone, Debug)]
pub struct Config {
    pub scheme_prefix: String,
    pub event_name: String,
    pub global_name: String,
}

/// The abstract form of a [`Config`]: the same three strings as character
/// sequences.
pub struct AbsConfig {
    pub scheme_prefix: Seq<char>,
    pub event_name: Seq<char>,
    pub global_name: Seq<char>,
}

impl View for Config {
    type V = AbsConfig;

    open spec fn view(&self) -> AbsConfig {
        AbsConfig {
            scheme_prefix: self.scheme_prefix@,
            event_name: self.event_name@,
            global_name: self.global_name@,
        }
    }
}

impl Config {
    pub fn new(scheme_prefix: String, event_name: String, global_name: String) -> (c: Config)
        ensures
            c@.scheme_prefix == scheme_prefix@,
            c@.event_name == event_name@,
            c@.global_name == global_name@,
    {
        Config { scheme_prefix, event_name, global_name }
    }
}

/// The configuration the application registers at build time: its custom
/// URL scheme, the canonical event name, and the webview global the
/// fallback channel assigns.
pub fn default_config() -> (c: Config)
    ensures
        c@.scheme_prefix == "algokit-lora://"@,
        c@.event_name == "deep-link-received"@,
        c@.global_name == "deepLink"@,
{
    Config {
        scheme_prefix: "algokit-lora://".to_owned(),
        event_name: "deep-link-received".to_owned(),
        global_name: "deepLink".to_owned(),
    }
}

/// Outcome of the single-instance claim at process start.
#[derive(Debug)]
pub enum LaunchOutcome {
    /// The claim was free: this process is now the primary instance and
    /// proceeds to create the window.
    BecomePrimary,
    /// Another process already holds the claim: hand it this invocation's
    /// argument list and terminate without creating anything.
    RelayAndExit { args: Vec<String> },
}

/// Resolve the single-instance claim. `claim_held` says whether another
/// process already holds the claim over the application identifier; `args`
/// is this invocation's argument vector. A later launch never proceeds: its
/// arguments are passed on, unchanged and in order, to the holder.
pub fn decide_launch(claim_held: bool, args: Vec<String>) -> (o: LaunchOutcome)
    ensures
        claim_held ==> (o matches LaunchOutcome::RelayAndExit { args: a } && a@ == args@),
        !claim_held ==> o is BecomePrimary,
{
    if claim_held {
        LaunchOutcome::RelayAndExit { args }
    } else {
        LaunchOutcome::BecomePrimary
    }
}

/// The actions one validated delivery performs: for a URL carrying the
/// scheme prefix, first the script-injection fallback, then exactly one
/// emitted event, both carrying the raw URL; for any other URL, nothing.
pub open spec fn spec_delivery(c: AbsConfig, url: Seq<char>) -> Seq<AbsAction> {
    if spec_prefix_of(c.scheme_prefix, url) {
        seq![
            AbsAction::SetGlobal { name: c.global_name, value: url },
            AbsAction::EmitEvent { name: c.event_name, payload: url },
        ]
    } else {
        Seq::empty()
    }
}

/// The actions of a primary instance's startup: exactly one window, and, on
/// the platform whose first launch carries the URL in the argument vector,
/// one delivery of the second argument if there is one.
pub open spec fn spec_startup(c: AbsConfig, platform: Platform, args: Seq<Seq<char>>) -> Seq<
    AbsAction,
> {
    seq![AbsAction::CreateWindow] + if platform is ArgumentVectorDriven && args.len() > 1 {
        spec_delivery(c, args[1])
    } else {
        Seq::empty()
    }
}

/// The actions of the relay handler, run in the primary instance when a
/// later launch hands its argument list over: focus the existing window,
/// and emit one event if the relayed second argument carries the scheme
/// prefix. No window is created and no fallback assignment is made: the
/// primary instance's listeners are already attached.
pub open spec fn spec_relay(c: AbsConfig, args: Seq<Seq<char>>) -> Seq<AbsAction> {
    seq![AbsAction::FocusWindow] + if args.len() > 1 && spec_prefix_of(c.scheme_prefix, args[1]) {
        seq![AbsAction::EmitEvent { name: c.event_name, payload: args[1] }]
    } else {
        Seq::empty()
    }
}

/// The deep-link dispatcher of the primary instance. `window_open` records
/// whether the single application window exists; deliveries require it,
/// since a delivery with no window to serve it is fatal to the process and
/// never reaches this logic.
pub struct Dispatcher {
    pub config: Config,
    pub window_open: bool,
}

impl Dispatcher {
    /// A dispatcher for a freshly claimed primary instance: configured, no
    /// window yet.
    pub fn new(config: Config) -> (d: Dispatcher)
        ensures
            d.config == config,
            !d.window_open,
    {
        Dispatcher { config, window_open: false }
    }

    /// One validated delivery, shared by the startup and callback paths.
    fn delivery_actions(&self, url: &String) -> (acts: Vec<UiAction>)
        ensures
            abs_actions(acts@) == spec_delivery(self.config@, url@),
    {
        let mut acts: Vec<UiAction> = Vec::new();
        if starts_with_prefix(url.as_str(), self.config.scheme_prefix.as_str()) {
            acts.push(
                UiAction::SetGlobal { name: self.config.global_name.clone(), value: url.clone() },
            );
            acts.push(
                UiAction::EmitEvent { name: self.config.event_name.clone(), payload: url.clone() },
            );
        }
        proof {
            assert(abs_actions(acts@) =~= spec_delivery(self.config@, url@));
        }
        acts
    }

    /// Startup of the primary instance: create the one application window,
    /// and, on the argument-vector-driven platform, treat the second process
    /// argument (when present) as a candidate deep-link URL. On the
    /// callback-driven platform the argument vector is ignored: the hook
    /// delivers every URL, first launch included.
    pub fn on_startup(&mut self, platform: Platform, args: &Vec<String>) -> (acts: Vec<UiAction>)
        requires
            !old(self).window_open,
        ensures
            final(self).window_open,
            final(self).config == old(self).config,
            abs_actions(acts@) == spec_startup(old(self).config@, platform, args.deep_view()),
    {
        self.window_open = true;
        let mut acts: Vec<UiAction> = Vec::new();
        acts.push(UiAction::CreateWindow);
        let mut tail: Vec<UiAction> = Vec::new();
        match platform {
            Platform::CallbackDriven => {},
            Platform::ArgumentVectorDriven => {
                if args.len() > 1 {
                    tail = self.delivery_actions(&args[1]);
                }
            },
        }
        acts.append(&mut tail);
        proof {
            assert(abs_actions(acts@) =~= spec_startup(
                old(self).config@,
                platform,
                args.deep_view(),
            ));
        }
        acts
    }

    /// A scheme callback: the hook hands one URL in; the dispatcher answers
    /// with one validated delivery. Requires the window to be open: a
    /// delivery with no window to serve it aborts the process before any
    /// action is taken.
    pub fn on_scheme_callback(&self, url: &String) -> (acts: Vec<UiAction>)
        requires
            self.window_open,
        ensures
            abs_actions(acts@) == spec_delivery(self.config@, url@),
    {
        self.delivery_actions(url)
    }

    /// A relayed second launch: focus the existing window, then emit one
    /// event if the relayed argument list carries a valid URL in second
    /// position. Requires the window to be open for the same reason as the
    /// callback path: focusing must succeed or the process aborts.
    pub fn on_second_instance(&self, args: &Vec<String>) -> (acts: Vec<UiAction>)
        requires
            self.window_open,
        ensures
            abs_actions(acts@) == spec_relay(self.config@, args.deep_view()),
    {
        let mut acts: Vec<UiAction> = Vec::new();
        acts.push(UiAction::FocusWindow);
        if args.len() > 1 {
            let url = &args[1];
            if starts_with_prefix(url.as_str(), self.config.scheme_prefix.as_str()) {
                acts.push(
                    UiAction::EmitEvent {
                        name: self.config.event_name.clone(),
                        payload: url.clone(),
                    },
                );
            }
        }
        proof {
            assert(abs_actions(acts@) =~= spec_relay(self.config@, args.deep_view()));
        }
        acts
    }
}

} // verus!
