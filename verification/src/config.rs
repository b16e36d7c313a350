//! The agent's settings, their defaults, and the environment variables and
//! command-line flags that override them.

use vstd::prelude::*;

verus! {

/// Settings of the model endpoint.
#[derive(Clone, Debug)]
pub struct MimoSettings {
    pub api_key: String,
    pub base_url: String,
    pub fast_model: String,
    pub deep_model: String,
}

/// Settings of the chain connection.
#[derive(Clone, Debug)]
pub struct SolanaSettings {
    pub rpc_url: String,
    pub ws_url: String,
    pub keypair_path: String,
}

/// Settings of the agent loop.
#[derive(Clone, Debug)]
pub struct AgentSettings {
    pub strategy: String,
    pub dry_run: bool,
    pub poll_interval_ms: u64,
}

/// All settings.
#[derive(Clone, Debug)]
pub struct Settings {
    pub mimo: MimoSettings,
    pub solana: SolanaSettings,
    pub agent: AgentSettings,
}

/// Default interval between polls of the observed state, in milliseconds.
pub fn default_poll_ms() -> (ms: u64)
    ensures
        ms == 2_000,
{
    2_000
}

/// A default value of a setting.
#[derive(Clone, Copy, Debug, PartialEq, Eq)]
pub enum DefaultValue {
    Text(&'static str),
    Flag(bool),
}

/// The defaults, by setting key, in the order in which they are laid down.
pub open spec fn default_entries() -> Seq<(&'static str, DefaultValue)> {
    seq![
        ("mimo.base_url", DefaultValue::Text("https://token-plan-sgp.xiaomimimo.com/v1")),
        ("mimo.fast_model", DefaultValue::Text("mimo-v2.5")),
        ("mimo.deep_model", DefaultValue::Text("mimo-v2.5-pro")),
        ("solana.rpc_url", DefaultValue::Text("https://api.mainnet-beta.solana.com")),
        ("solana.ws_url", DefaultValue::Text("wss://api.mainnet-beta.solana.com")),
        ("agent.dry_run", DefaultValue::Flag(true)),
        ("agent.strategy", DefaultValue::Text("arb-scout")),
    ]
}

/// The environment variables that override settings, each with the key of
/// the setting it overrides, in the order in which they are applied.
pub open spec fn env_override_table() -> Seq<(&'static str, &'static str)> {
    seq![
        ("MIMO_API_KEY", "mimo.api_key"),
        ("MIMO_BASE_URL", "mimo.base_url"),
        ("MIMO_FAST_MODEL", "mimo.fast_model"),
        ("MIMO_DEEP_MODEL", "mimo.deep_model"),
        ("SOLANA_RPC_URL", "solana.rpc_url"),
        ("SOLANA_WS_URL", "solana.ws_url"),
        ("KEYPAIR_PATH", "solana.keypair_path"),
        ("AGENT_DRY_RUN", "agent.dry_run"),
    ]
}

/// The default of each setting that has one: dry run is on, the strategy is
/// arb-scout, and the endpoints are those of the public services.
pub fn setting_defaults() -> (r: Vec<(&'static str, DefaultValue)>)
    ensures
        r@ == default_entries(),
{
    let r = vec![
        ("mimo.base_url", DefaultValue::Text("https://token-plan-sgp.xiaomimimo.com/v1")),
        ("mimo.fast_model", DefaultValue::Text("mimo-v2.5")),
        ("mimo.deep_model", DefaultValue::Text("mimo-v2.5-pro")),
        ("solana.rpc_url", DefaultValue::Text("https://api.mainnet-beta.solana.com")),
        ("solana.ws_url", DefaultValue::Text("wss://api.mainnet-beta.solana.com")),
        ("agent.dry_run", DefaultValue::Flag(true)),
        ("agent.strategy", DefaultValue::Text("arb-scout")),
    ];
    assert(r@ =~= default_entries());
    r
}

/// The environment variables that override settings, with the setting each overrides.
pub fn env_override_keys() -> (r: Vec<(&'static str, &'static str)>)
    ensures
        r@ == env_override_table(),
{
    let r = vec![
        ("MIMO_API_KEY", "mimo.api_key"),
        ("MIMO_BASE_URL", "mimo.base_url"),
        ("MIMO_FAST_MODEL", "mimo.fast_model"),
        ("MIMO_DEEP_MODEL", "mimo.deep_model"),
        ("SOLANA_RPC_URL", "solana.rpc_url"),
        ("SOLANA_WS_URL", "solana.ws_url"),
        ("KEYPAIR_PATH", "solana.keypair_path"),
        ("AGENT_DRY_RUN", "agent.dry_run"),
    ];
    assert(r@ =~= env_override_table());
    r
}

/// The overrides that the first `n` environment variables of the table give,
/// for the values read: each variable that is set overrides its setting with
/// its value, in table order.
pub open spec fn overrides_from(values: Seq<Option<String>>, n: nat) -> Seq<(&'static str, Seq<char>)>
    decreases n,
{
    if n == 0 {
        Seq::empty()
    } else {
        let rest = overrides_from(values, (n - 1) as nat);
        match values[n - 1] {
            Some(v) => rest.push((env_override_table()[n - 1].1, v@)),
            None => rest,
        }
    }
}

/// The setting overrides given by the environment: `values[i]` is the value of
/// the i-th variable of the table, or `None` where it is not set.
pub fn env_overrides(values: &Vec<Option<String>>) -> (r: Vec<(&'static str, String)>)
    requires
        values@.len() == env_override_table().len(),
    ensures
        r@.map_values(|e: (&'static str, String)| (e.0, e.1@)) == overrides_from(values@, values@.len()),
{
    let table = env_override_keys();
    let mut r: Vec<(&'static str, String)> = Vec::new();
    let mut i: usize = 0;
    while i < values.len()
        invariant
            i <= values@.len() == table@.len(),
            table@ == env_override_table(),
            r@.map_values(|e: (&'static str, String)| (e.0, e.1@)) == overrides_from(values@, i as nat),
        decreases values@.len() - i,
    {
        let ghost before = r@;
        match &values[i] {
            Some(v) => {
                r.push((table[i].1, v.clone()));
                assert(r@.map_values(|e: (&'static str, String)| (e.0, e.1@)) =~= before.map_values(
                    |e: (&'static str, String)| (e.0, e.1@),
                ).push((table@[i as int].1, v@)));
            },
            None => {},
        }
        i = i + 1;
    }
    r
}

impl Settings {
    /// Applies the command-line flags: `--dry-run` turns dry run on (it never
    /// turns it off), and `--strategy` replaces the strategy.
    pub fn apply_cli(&mut self, dry_run: bool, strategy: Option<String>)
        ensures
            final(self).mimo == old(self).mimo,
            final(self).solana == old(self).solana,
            final(self).agent.poll_interval_ms == old(self).agent.poll_interval_ms,
            final(self).agent.dry_run == (old(self).agent.dry_run || dry_run),
            final(self).agent.strategy == (match strategy {
                Some(s) => s,
                None => old(self).agent.strategy,
            }),
    {
        if dry_run {
            self.agent.dry_run = true;
        }
        if let Some(s) = strategy {
            self.agent.strategy = s;
        }
    }
}

// ---- laws -----------------------------------------------------------------

/// Each environment variable overrides its own setting: the variable's name
/// in lower case with its first underscore read as a dot.
pub proof fn lemma_env_table()
    ensures
        env_override_table().len() == 8,
        env_override_table()[0] == ("MIMO_API_KEY", "mimo.api_key"),
        env_override_table()[1] == ("MIMO_BASE_URL", "mimo.base_url"),
        env_override_table()[2] == ("MIMO_FAST_MODEL", "mimo.fast_model"),
        env_override_table()[3] == ("MIMO_DEEP_MODEL", "mimo.deep_model"),
        env_override_table()[4] == ("SOLANA_RPC_URL", "solana.rpc_url"),
        env_override_table()[5] == ("SOLANA_WS_URL", "solana.ws_url"),
        env_override_table()[6] == ("KEYPAIR_PATH", "solana.keypair_path"),
        env_override_table()[7] == ("AGENT_DRY_RUN", "agent.dry_run"),
{
}

/// The defaults: dry run on, the arb-scout strategy, the public endpoints and
/// the two default models.
pub proof fn lemma_default_table()
    ensures
        default_entries().len() == 7,
        default_entries()[0] == ("mimo.base_url", DefaultValue::Text("https://token-plan-sgp.xiaomimimo.com/v1")),
        default_entries()[1] == ("mimo.fast_model", DefaultValue::Text("mimo-v2.5")),
        default_entries()[2] == ("mimo.deep_model", DefaultValue::Text("mimo-v2.5-pro")),
        default_entries()[3] == ("solana.rpc_url", DefaultValue::Text("https://api.mainnet-beta.solana.com")),
        default_entries()[4] == ("solana.ws_url", DefaultValue::Text("wss://api.mainnet-beta.solana.com")),
        default_entries()[5] == ("agent.dry_run", DefaultValue::Flag(true)),
        default_entries()[6] == ("agent.strategy", DefaultValue::Text("arb-scout")),
{
}

/// Every set variable among the first `n` overrides its setting with its
/// value, and every override comes from a set variable of the table.
pub proof fn lemma_overrides_from_set_variables(values: Seq<Option<String>>, n: nat)
    requires
        n <= values.len(),
        n <= env_override_table().len(),
    ensures
        forall|i: int|
            0 <= i < n && #[trigger] values[i] is Some ==> overrides_from(values, n).contains(
                (env_override_table()[i].1, values[i]->Some_0@),
            ),
        forall|e: (&'static str, Seq<char>)|
            #[trigger] overrides_from(values, n).contains(e) ==> exists|i: int|
                0 <= i < n && values[i] is Some && e == (env_override_table()[i].1, #[trigger] values[i]->Some_0@),
    decreases n,
{
    if n > 0 {
        let m = (n - 1) as nat;
        lemma_overrides_from_set_variables(values, m);
        let rest = overrides_from(values, m);
        let all = overrides_from(values, n);
        assert forall|i: int| 0 <= i < n && #[trigger] values[i] is Some implies all.contains(
            (env_override_table()[i].1, values[i]->Some_0@),
        ) by {
            if i < m {
                let e = (env_override_table()[i].1, values[i]->Some_0@);
                let k = choose|k: int| 0 <= k < rest.len() && rest[k] == e;
                assert(all[k] == e);
            } else {
                assert(all[all.len() - 1] == (env_override_table()[i].1, values[i]->Some_0@));
            }
        }
        assert forall|e: (&'static str, Seq<char>)| #[trigger] all.contains(e) implies exists|i: int|
            0 <= i < n && values[i] is Some && e == (env_override_table()[i].1, #[trigger] values[i]->Some_0@) by {
            let k = choose|k: int| 0 <= k < all.len() && all[k] == e;
            if k < rest.len() {
                assert(rest[k] == e);
                assert(rest.contains(e));
            } else {
                assert(values[n - 1] is Some);
                assert(e == (env_override_table()[n - 1].1, values[n - 1]->Some_0@));
            }
        }
    }
}

} // verus!
