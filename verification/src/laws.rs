//! Laws of the dispatcher, stated over the same spec functions its
//! contracts use: exactly one event per valid URL on every delivery path,
//! silence on every other input, and no second window from a relayed
//! launch.

use vstd::prelude::*;

use crate::actions::AbsAction;
use crate::actions::Platform;
use crate::actions::emitted_events;
use crate::actions::global_assignments;
use crate::actions::window_creations;
use crate::dispatch::AbsConfig;
use crate::dispatch::spec_delivery;
use crate::dispatch::spec_relay;
use crate::dispatch::spec_startup;
use crate::scheme::spec_prefix_of;

verus! {

/// A URL that carries the scheme prefix is delivered exactly once: one
/// emitted event whose payload is the URL itself, and one fallback
/// assignment of the same URL.
pub proof fn lemma_delivery_valid_url(c: AbsConfig, url: Seq<char>)
    requires
        spec_prefix_of(c.scheme_prefix, url),
    ensures
        emitted_events(spec_delivery(c, url)) == seq![(c.event_name, url)],
        global_assignments(spec_delivery(c, url)) == seq![(c.global_name, url)],
{
    reveal_with_fuel(emitted_events, 4);
    reveal_with_fuel(global_assignments, 4);
    let acts = spec_delivery(c, url);
    assert(acts.drop_first() =~= seq![AbsAction::EmitEvent { name: c.event_name, payload: url }]);
    assert(acts.drop_first().drop_first() =~= Seq::<AbsAction>::empty());
    assert(emitted_events(acts) =~= seq![(c.event_name, url)]);
    assert(global_assignments(acts) =~= seq![(c.global_name, url)]);
}

/// A URL without the scheme prefix is silently dropped: a delivery emits no
/// event and assigns no global.
pub proof fn lemma_delivery_foreign_url(c: AbsConfig, url: Seq<char>)
    requires
        !spec_prefix_of(c.scheme_prefix, url),
    ensures
        emitted_events(spec_delivery(c, url)).len() == 0,
        global_assignments(spec_delivery(c, url)).len() == 0,
{
}

/// On the platform without a native hook at first launch, starting with a
/// valid URL as the second process argument delivers it both ways: the
/// event and the global assignment each carry that URL, each exactly once.
pub proof fn lemma_startup_valid_url(c: AbsConfig, args: Seq<Seq<char>>)
    requires
        args.len() > 1,
        spec_prefix_of(c.scheme_prefix, args[1]),
    ensures
        emitted_events(spec_startup(c, Platform::ArgumentVectorDriven, args)) == seq![
            (c.event_name, args[1]),
        ],
        global_assignments(spec_startup(c, Platform::ArgumentVectorDriven, args)) == seq![
            (c.global_name, args[1]),
        ],
{
    let acts = spec_startup(c, Platform::ArgumentVectorDriven, args);
    assert(acts.drop_first() =~= spec_delivery(c, args[1]));
    lemma_delivery_valid_url(c, args[1]);
}

/// Starting the primary instance with no extra argument delivers nothing,
/// on either platform: no event is emitted and no global is assigned.
pub proof fn lemma_startup_no_args(c: AbsConfig, platform: Platform, args: Seq<Seq<char>>)
    requires
        args.len() <= 1,
    ensures
        emitted_events(spec_startup(c, platform, args)).len() == 0,
        global_assignments(spec_startup(c, platform, args)).len() == 0,
{
    reveal_with_fuel(emitted_events, 3);
    reveal_with_fuel(global_assignments, 3);
    let acts = spec_startup(c, platform, args);
    assert(acts =~= seq![AbsAction::CreateWindow]);
    assert(acts.drop_first() =~= Seq::<AbsAction>::empty());
}

/// A foreign second argument at startup delivers nothing either.
pub proof fn lemma_startup_foreign_url(c: AbsConfig, platform: Platform, args: Seq<Seq<char>>)
    requires
        args.len() > 1 ==> !spec_prefix_of(c.scheme_prefix, args[1]),
    ensures
        emitted_events(spec_startup(c, platform, args)).len() == 0,
        global_assignments(spec_startup(c, platform, args)).len() == 0,
{
    reveal_with_fuel(emitted_events, 3);
    reveal_with_fuel(global_assignments, 3);
    let acts = spec_startup(c, platform, args);
    assert(acts =~= seq![AbsAction::CreateWindow]);
    assert(acts.drop_first() =~= Seq::<AbsAction>::empty());
}

/// The primary instance's startup creates exactly one window, whatever the
/// platform and arguments.
pub proof fn lemma_startup_one_window(c: AbsConfig, platform: Platform, args: Seq<Seq<char>>)
    ensures
        window_creations(spec_startup(c, platform, args)) == 1,
{
    reveal_with_fuel(window_creations, 5);
    let acts = spec_startup(c, platform, args);
    assert(acts[0] is CreateWindow);
    assert(acts.drop_first() =~= if platform is ArgumentVectorDriven && args.len() > 1 {
        spec_delivery(c, args[1])
    } else {
        Seq::<AbsAction>::empty()
    });
}

/// A relayed second launch never creates a window: the relay path focuses
/// the existing one and at most emits, whatever the relayed arguments.
pub proof fn lemma_relay_no_window(c: AbsConfig, args: Seq<Seq<char>>)
    ensures
        window_creations(spec_relay(c, args)) == 0,
{
    reveal_with_fuel(window_creations, 4);
    let acts = spec_relay(c, args);
    assert(acts[0] is FocusWindow);
    assert(acts.drop_first() =~= if args.len() > 1 && spec_prefix_of(c.scheme_prefix, args[1]) {
        seq![AbsAction::EmitEvent { name: c.event_name, payload: args[1] }]
    } else {
        Seq::<AbsAction>::empty()
    });
}

/// A relayed launch with a valid URL in second position emits exactly one
/// event, carrying that URL; it never touches the fallback global.
pub proof fn lemma_relay_valid_url(c: AbsConfig, args: Seq<Seq<char>>)
    requires
        args.len() > 1,
        spec_prefix_of(c.scheme_prefix, args[1]),
    ensures
        emitted_events(spec_relay(c, args)) == seq![(c.event_name, args[1])],
        global_assignments(spec_relay(c, args)).len() == 0,
{
    reveal_with_fuel(emitted_events, 4);
    reveal_with_fuel(global_assignments, 4);
    let acts = spec_relay(c, args);
    assert(acts.drop_first() =~= seq![
        AbsAction::EmitEvent { name: c.event_name, payload: args[1] },
    ]);
    assert(emitted_events(acts) =~= seq![(c.event_name, args[1])]);
}

/// A relayed launch without a valid URL emits nothing.
pub proof fn lemma_relay_no_url(c: AbsConfig, args: Seq<Seq<char>>)
    requires
        args.len() > 1 ==> !spec_prefix_of(c.scheme_prefix, args[1]),
    ensures
        emitted_events(spec_relay(c, args)).len() == 0,
        global_assignments(spec_relay(c, args)).len() == 0,
{
    reveal_with_fuel(emitted_events, 3);
    reveal_with_fuel(global_assignments, 3);
    let acts = spec_relay(c, args);
    assert(acts =~= seq![AbsAction::FocusWindow]);
    assert(acts.drop_first() =~= Seq::<AbsAction>::empty());
}

} // verus!
