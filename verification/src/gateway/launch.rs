//! How the gateway is launched.
use vstd::prelude::*;

verus! {

pub const FLAG_PRINT_TIMER_TICK: &'static str = "--print-timer-tick";

pub const FLAG_PRINT_TRANSITIONS: &'static str = "--print-transitions";

pub const FLAG_TRACE_ACTUATION_INGRESS: &'static str = "--trace-actuation-ingress";

/// Everything the gateway is launched with.
#[derive(Clone, Copy, Debug, PartialEq, Eq)]
pub struct GatewayLaunchConfig<'a> {
    pub car_identity: &'a str,
    pub print_timer_tick: bool,
    pub print_transitions: bool,
    pub trace_actuation_ingress: bool,
    pub can_interface: &'a str,
}

/// A flag stands among the arguments.
pub open spec fn given(args: Seq<String>, flag: Seq<char>) -> bool {
    exists|i: int| 0 <= i < args.len() && (#[trigger] args[i])@ == flag
}

fn any_is(args: &Vec<String>, flag: &str) -> (r: bool)
    ensures
        r == given(args@, flag@),
{
    let wanted = flag.to_owned();
    let mut i: usize = 0;
    while i < args.len()
        invariant
            i <= args.len(),
            wanted@ == flag@,
            forall|k: int| 0 <= k < i ==> (#[trigger] args[k])@ != flag@,
        decreases args.len() - i,
    {
        if args[i] == wanted {
            assert(args[i as int]@ == flag@);
            return true;
        }
        i = i + 1;
    }
    false
}

impl<'a> GatewayLaunchConfig<'a> {
    /// Reads the flags off the arguments; arguments that are no flags are passed over.
    pub fn from_args(car_identity: &'a str, can_interface: &'a str, args: &Vec<String>) -> (config:
        GatewayLaunchConfig<'a>)
        ensures
            config.car_identity == car_identity,
            config.can_interface == can_interface,
            config.print_timer_tick == given(args@, FLAG_PRINT_TIMER_TICK@),
            config.print_transitions == given(args@, FLAG_PRINT_TRANSITIONS@),
            config.trace_actuation_ingress == given(args@, FLAG_TRACE_ACTUATION_INGRESS@),
    {
        GatewayLaunchConfig {
            car_identity,
            print_timer_tick: any_is(args, FLAG_PRINT_TIMER_TICK),
            print_transitions: any_is(args, FLAG_PRINT_TRANSITIONS),
            trace_actuation_ingress: any_is(args, FLAG_TRACE_ACTUATION_INGRESS),
            can_interface,
        }
    }
}

} // verus!
