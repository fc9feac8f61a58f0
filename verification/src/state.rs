//! The strategy chain installed at boot: which strategy answers for each
//! name in `auth.strategies`, in order.

use vstd::prelude::*;
use crate::config::{config_check, strategy_names, AuthConfig};
use crate::error::{unit_result_view, AuthError, AuthErrorView};
use crate::registry::StrategyRegistry;
use crate::text::str_eq;

verus! {

/// One link of the strategy chain.
pub enum StrategySlot {
    /// The encrypted session cookie.
    Cookie,
    /// JWT bearer tokens.
    Jwt,
    /// A custom strategy registered under this name.
    Custom(String),
}

/// The value of a [`StrategySlot`].
pub enum StrategySlotView {
    Cookie,
    Jwt,
    Custom(Seq<char>),
}

impl View for StrategySlot {
    type V = StrategySlotView;

    open spec fn view(&self) -> StrategySlotView {
        match self {
            StrategySlot::Cookie => StrategySlotView::Cookie,
            StrategySlot::Jwt => StrategySlotView::Jwt,
            StrategySlot::Custom(n) => StrategySlotView::Custom(n@),
        }
    }
}

/// The strategy a configured name stands for.
pub open spec fn slot_for(name: Seq<char>) -> StrategySlotView {
    if name == "cookie"@ {
        StrategySlotView::Cookie
    } else if name == "jwt"@ {
        StrategySlotView::Jwt
    } else {
        StrategySlotView::Custom(name)
    }
}

/// [`slot_for`] as a function value.
pub open spec fn slots() -> spec_fn(Seq<char>) -> StrategySlotView {
    |n: Seq<char>| slot_for(n)
}

pub open spec fn slot_views(v: Seq<StrategySlot>) -> Seq<StrategySlotView> {
    v.map_values(|s: StrategySlot| s@)
}

/// The chain for a valid config: one strategy per configured name, in
/// order; an invalid config (unknown strategy, missing or empty JWT secret,
/// no `database_authenticatable`) is refused with its error.
pub fn strategy_chain(config: &AuthConfig, registry: &StrategyRegistry) -> (r: Result<Vec<StrategySlot>, AuthError>)
    ensures
        match r {
            Ok(v) => config_check(*config, registry.name_set()) is Ok && slot_views(v@)
                == strategy_names(*config).map_values(slots()),
            Err(e) => config_check(*config, registry.name_set()) == Err::<(), AuthErrorView>(e@),
        },
{
    match config.validate(registry) {
        Err(e) => {
            return Err(e);
        },
        Ok(()) => {},
    }
    let ghost names = strategy_names(*config);
    let mut out: Vec<StrategySlot> = Vec::new();
    let mut i: usize = 0;
    while i < config.strategies.len()
        invariant
            i <= config.strategies@.len(),
            names == strategy_names(*config),
            slot_views(out@) == names.take(i as int).map_values(slots()),
        decreases config.strategies@.len() - i,
    {
        let name = config.strategies[i].as_str();
        assert(names[i as int] == name@);
        if str_eq(name, "cookie") {
            out.push(StrategySlot::Cookie);
        } else if str_eq(name, "jwt") {
            out.push(StrategySlot::Jwt);
        } else {
            out.push(StrategySlot::Custom(name.to_owned()));
        }
        assert(names.take(i + 1) =~= names.take(i as int).push(name@));
        assert(names.take(i + 1).map_values(slots()) =~= names.take(i as int).map_values(slots()).push(
            slot_for(name@),
        ));
        assert(slot_views(out@) =~= names.take(i + 1).map_values(slots()));
        i += 1;
    }
    assert(names.take(names.len() as int) =~= names);
    Ok(out)
}

} // verus!
