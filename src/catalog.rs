//! The module library: every module type with its default footprint.
use vstd::prelude::*;

use crate::kind;

verus! {

/// Metadata for a module type, as the module library lists it.
#[derive(Clone, Debug)]
pub struct ModuleMeta {
    pub id: &'static str,
    pub name: &'static str,
    pub description: &'static str,
    pub default_width: u32,
    pub default_height: u32,
}

/// Every module type, in the order the library lists them.
pub fn all_module_meta() -> (r: Vec<ModuleMeta>)
    ensures
        r@.len() == 8,
        r@[0].id@ == kind::PRICE_CHART@ && r@[0].default_width == 4 && r@[0].default_height == 2,
        r@[1].id@ == kind::IV_METRICS@ && r@[1].default_width == 2 && r@[1].default_height == 2,
        r@[2].id@ == kind::OPTIONS_CHAIN@ && r@[2].default_width == 4 && r@[2].default_height == 3,
        r@[3].id@ == kind::GREEKS_SUMMARY@ && r@[3].default_width == 2 && r@[3].default_height == 2,
        r@[4].id@ == kind::EARNINGS_HISTORY@ && r@[4].default_width == 3 && r@[4].default_height
            == 2,
        r@[5].id@ == kind::PORTFOLIO_EXPOSURE@ && r@[5].default_width == 3 && r@[5].default_height
            == 2,
        r@[6].id@ == kind::PAYOFF_DIAGRAM@ && r@[6].default_width == 3 && r@[6].default_height == 2,
        r@[7].id@ == kind::BACKTEST_EDITOR@ && r@[7].default_width == 4 && r@[7].default_height
            == 3,
{
    vec![
        ModuleMeta {
            id: kind::PRICE_CHART,
            name: "Price & Trend Chart",
            description: "Candlestick or line chart for symbol price",
            default_width: 4,
            default_height: 2,
        },
        ModuleMeta {
            id: kind::IV_METRICS,
            name: "IV Metrics",
            description: "Implied volatility surface and metrics",
            default_width: 2,
            default_height: 2,
        },
        ModuleMeta {
            id: kind::OPTIONS_CHAIN,
            name: "Options Chain",
            description: "Calls and puts table",
            default_width: 4,
            default_height: 3,
        },
        ModuleMeta {
            id: kind::GREEKS_SUMMARY,
            name: "Greeks Summary",
            description: "Delta, Gamma, Theta, Vega summary",
            default_width: 2,
            default_height: 2,
        },
        ModuleMeta {
            id: kind::EARNINGS_HISTORY,
            name: "Earnings History",
            description: "Historical earnings dates and surprise",
            default_width: 3,
            default_height: 2,
        },
        ModuleMeta {
            id: kind::PORTFOLIO_EXPOSURE,
            name: "Portfolio Exposure",
            description: "Exposure by underlying and delta",
            default_width: 3,
            default_height: 2,
        },
        ModuleMeta {
            id: kind::PAYOFF_DIAGRAM,
            name: "Payoff Diagram",
            description: "Option strategy payoff at expiry",
            default_width: 3,
            default_height: 2,
        },
        ModuleMeta {
            id: kind::BACKTEST_EDITOR,
            name: "Backtest Script Editor",
            description: "Write and run backtest scripts",
            default_width: 4,
            default_height: 3,
        },
    ]
}

} // verus!
