//! Known module type keys; the renderer registry matches on these.
use vstd::prelude::*;

verus! {

pub const PRICE_CHART: &'static str = "price_chart";

pub const IV_METRICS: &'static str = "iv_metrics";

pub const OPTIONS_CHAIN: &'static str = "options_chain";

pub const GREEKS_SUMMARY: &'static str = "greeks_summary";

pub const EARNINGS_HISTORY: &'static str = "earnings_history";

pub const PORTFOLIO_EXPOSURE: &'static str = "portfolio_exposure";

pub const PAYOFF_DIAGRAM: &'static str = "payoff_diagram";

pub const BACKTEST_EDITOR: &'static str = "backtest_editor";

} // verus!
