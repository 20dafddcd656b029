//! Settings of the bounties contract.
use vstd::prelude::*;
use vstd::string::*;
use super::types::{
    DEFAULT_BOUNTY_CLAIM_BOND, DEFAULT_BOUNTY_FORGIVENESS_PERIOD,
    DEFAULT_PERIOD_FOR_OPENING_DISPUTE, DEFAULT_PLATFORM_FEE_PERCENTAGE,
    DEFAULT_VALIDATORS_DAO_FEE_PERCENTAGE, DEFAULT_PENALTY_PLATFORM_FEE_PERCENTAGE,
    DEFAULT_PENALTY_VALIDATORS_DAO_FEE_PERCENTAGE,
};

verus! {

#[derive(Clone, Debug, PartialEq, Eq)]
pub struct ConfigCreate {
    pub bounty_claim_bond: u128,
    pub bounty_forgiveness_period: u64,
    pub period_for_opening_dispute: u64,
    pub platform_fee_percentage: u32,
    pub validators_dao_fee_percentage: u32,
    pub penalty_platform_fee_percentage: u32,
    pub penalty_validators_dao_fee_percentage: u32,
    pub use_owners_whitelist: bool,
}

#[derive(Clone, Debug, PartialEq, Eq)]
pub struct ConfigV1 {
    pub bounty_claim_bond: u128,
    pub bounty_forgiveness_period: u64,
    pub period_for_opening_dispute: u64,
    pub categories: Vec<String>,
    pub tags: Vec<String>,
    pub platform_fee_percentage: u32,
    pub validators_dao_fee_percentage: u32,
    pub penalty_platform_fee_percentage: u32,
    pub penalty_validators_dao_fee_percentage: u32,
}

#[derive(Clone, Debug, PartialEq, Eq)]
pub struct ConfigV2 {
    pub bounty_claim_bond: u128,
    pub bounty_forgiveness_period: u64,
    pub period_for_opening_dispute: u64,
    pub categories: Vec<String>,
    pub tags: Vec<String>,
    pub platform_fee_percentage: u32,
    pub validators_dao_fee_percentage: u32,
    pub penalty_platform_fee_percentage: u32,
    pub penalty_validators_dao_fee_percentage: u32,
    pub currencies: Vec<String>,
}

#[derive(Clone, Debug, PartialEq, Eq)]
pub struct Config {
    pub bounty_claim_bond: u128,
    pub bounty_forgiveness_period: u64,
    pub period_for_opening_dispute: u64,
    pub categories: Vec<String>,
    pub tags: Vec<String>,
    pub platform_fee_percentage: u32,
    pub validators_dao_fee_percentage: u32,
    pub penalty_platform_fee_percentage: u32,
    pub penalty_validators_dao_fee_percentage: u32,
    pub currencies: Vec<String>,
    pub use_owners_whitelist: bool,
}

impl ConfigCreate {
    /// `config` with the settings of `self` and its own dictionaries.
    pub fn to_config(&self, config: Config) -> (r: Config)
        ensures
            r == (Config {
                bounty_claim_bond: self.bounty_claim_bond,
                bounty_forgiveness_period: self.bounty_forgiveness_period,
                period_for_opening_dispute: self.period_for_opening_dispute,
                platform_fee_percentage: self.platform_fee_percentage,
                validators_dao_fee_percentage: self.validators_dao_fee_percentage,
                penalty_platform_fee_percentage: self.penalty_platform_fee_percentage,
                penalty_validators_dao_fee_percentage: self.penalty_validators_dao_fee_percentage,
                use_owners_whitelist: self.use_owners_whitelist,
                ..config
            }),
    {
        Config {
            bounty_claim_bond: self.bounty_claim_bond,
            bounty_forgiveness_period: self.bounty_forgiveness_period,
            period_for_opening_dispute: self.period_for_opening_dispute,
            platform_fee_percentage: self.platform_fee_percentage,
            validators_dao_fee_percentage: self.validators_dao_fee_percentage,
            penalty_platform_fee_percentage: self.penalty_platform_fee_percentage,
            penalty_validators_dao_fee_percentage: self.penalty_validators_dao_fee_percentage,
            categories: config.categories,
            tags: config.tags,
            currencies: config.currencies,
            use_owners_whitelist: self.use_owners_whitelist,
        }
    }
}

impl Config {
    fn default_categories() -> (r: Vec<String>)
        ensures
            r@.len() == 4,
            r@[0]@ == "Marketing"@,
            r@[1]@ == "Development"@,
            r@[2]@ == "Design"@,
            r@[3]@ == "Other"@,
    {
        let mut v: Vec<String> = Vec::new();
        v.push(String::from_str("Marketing"));
        v.push(String::from_str("Development"));
        v.push(String::from_str("Design"));
        v.push(String::from_str("Other"));
        v
    }

    fn default_tags() -> (r: Vec<String>)
        ensures
            r@.len() == 18,
            r@[0]@ == "API"@,
            r@[1]@ == "Blockchain"@,
            r@[2]@ == "Community"@,
            r@[3]@ == "CSS"@,
            r@[4]@ == "DAO"@,
            r@[5]@ == "dApp"@,
            r@[6]@ == "DeFi"@,
            r@[7]@ == "Design"@,
            r@[8]@ == "Documentation"@,
            r@[9]@ == "HTML"@,
            r@[10]@ == "Javascript"@,
            r@[11]@ == "NFT"@,
            r@[12]@ == "React"@,
            r@[13]@ == "Rust"@,
            r@[14]@ == "Smart contract"@,
            r@[15]@ == "Typescript"@,
            r@[16]@ == "UI/UX"@,
            r@[17]@ == "web3"@,
    {
        let mut v: Vec<String> = Vec::new();
        v.push(String::from_str("API"));
        v.push(String::from_str("Blockchain"));
        v.push(String::from_str("Community"));
        v.push(String::from_str("CSS"));
        v.push(String::from_str("DAO"));
        v.push(String::from_str("dApp"));
        v.push(String::from_str("DeFi"));
        v.push(String::from_str("Design"));
        v.push(String::from_str("Documentation"));
        v.push(String::from_str("HTML"));
        v.push(String::from_str("Javascript"));
        v.push(String::from_str("NFT"));
        v.push(String::from_str("React"));
        v.push(String::from_str("Rust"));
        v.push(String::from_str("Smart contract"));
        v.push(String::from_str("Typescript"));
        v.push(String::from_str("UI/UX"));
        v.push(String::from_str("web3"));
        v
    }

    /// The initial settings: one NEAR of bond, a day of forgiveness, ten days to open
    /// a dispute, ten percent of fees, no penalties, the initial categories and tags,
    /// no currencies, and no owners whitelist.
    pub open spec fn is_initial(&self) -> bool {
        &&& self.bounty_claim_bond == DEFAULT_BOUNTY_CLAIM_BOND
        &&& self.bounty_forgiveness_period == DEFAULT_BOUNTY_FORGIVENESS_PERIOD
        &&& self.period_for_opening_dispute == DEFAULT_PERIOD_FOR_OPENING_DISPUTE
        &&& self.platform_fee_percentage == DEFAULT_PLATFORM_FEE_PERCENTAGE
        &&& self.validators_dao_fee_percentage == DEFAULT_VALIDATORS_DAO_FEE_PERCENTAGE
        &&& self.penalty_platform_fee_percentage == DEFAULT_PENALTY_PLATFORM_FEE_PERCENTAGE
        &&& self.penalty_validators_dao_fee_percentage == DEFAULT_PENALTY_VALIDATORS_DAO_FEE_PERCENTAGE
        &&& self.categories@.len() == 4
        &&& self.categories@[0]@ == "Marketing"@
        &&& self.categories@[1]@ == "Development"@
        &&& self.categories@[2]@ == "Design"@
        &&& self.categories@[3]@ == "Other"@
        &&& self.tags@.len() == 18
        &&& self.tags@[0]@ == "API"@
        &&& self.tags@[1]@ == "Blockchain"@
        &&& self.tags@[2]@ == "Community"@
        &&& self.tags@[3]@ == "CSS"@
        &&& self.tags@[4]@ == "DAO"@
        &&& self.tags@[5]@ == "dApp"@
        &&& self.tags@[6]@ == "DeFi"@
        &&& self.tags@[7]@ == "Design"@
        &&& self.tags@[8]@ == "Documentation"@
        &&& self.tags@[9]@ == "HTML"@
        &&& self.tags@[10]@ == "Javascript"@
        &&& self.tags@[11]@ == "NFT"@
        &&& self.tags@[12]@ == "React"@
        &&& self.tags@[13]@ == "Rust"@
        &&& self.tags@[14]@ == "Smart contract"@
        &&& self.tags@[15]@ == "Typescript"@
        &&& self.tags@[16]@ == "UI/UX"@
        &&& self.tags@[17]@ == "web3"@
        &&& self.currencies@.len() == 0
        &&& !self.use_owners_whitelist
    }

    /// The initial settings.
    pub fn default() -> (r: Config)
        ensures
            r.is_initial(),
    {
        Config {
            bounty_claim_bond: DEFAULT_BOUNTY_CLAIM_BOND,
            bounty_forgiveness_period: DEFAULT_BOUNTY_FORGIVENESS_PERIOD,
            period_for_opening_dispute: DEFAULT_PERIOD_FOR_OPENING_DISPUTE,
            categories: Config::default_categories(),
            tags: Config::default_tags(),
            platform_fee_percentage: DEFAULT_PLATFORM_FEE_PERCENTAGE,
            validators_dao_fee_percentage: DEFAULT_VALIDATORS_DAO_FEE_PERCENTAGE,
            penalty_platform_fee_percentage: DEFAULT_PENALTY_PLATFORM_FEE_PERCENTAGE,
            penalty_validators_dao_fee_percentage: DEFAULT_PENALTY_VALIDATORS_DAO_FEE_PERCENTAGE,
            currencies: Vec::new(),
            use_owners_whitelist: false,
        }
    }
}

/// A configuration as stored by any version of the contract.
#[derive(Clone, Debug, PartialEq, Eq)]
pub enum VersionedConfig {
    V1(ConfigV1),
    V2(ConfigV2),
    Current(Config),
}

impl VersionedConfig {
    /// `r` is this configuration in the current version: older ones gain no
    /// currencies and do not use the owners whitelist.
    pub open spec fn upgrades_to(self, r: Config) -> bool {
        match self {
            VersionedConfig::V1(c) => {
                &&& r.bounty_claim_bond == c.bounty_claim_bond
                &&& r.bounty_forgiveness_period == c.bounty_forgiveness_period
                &&& r.period_for_opening_dispute == c.period_for_opening_dispute
                &&& r.categories == c.categories
                &&& r.tags == c.tags
                &&& r.platform_fee_percentage == c.platform_fee_percentage
                &&& r.validators_dao_fee_percentage == c.validators_dao_fee_percentage
                &&& r.penalty_platform_fee_percentage == c.penalty_platform_fee_percentage
                &&& r.penalty_validators_dao_fee_percentage == c.penalty_validators_dao_fee_percentage
                &&& r.currencies@.len() == 0
                &&& !r.use_owners_whitelist
            },
            VersionedConfig::V2(c) => r == Config {
                bounty_claim_bond: c.bounty_claim_bond,
                bounty_forgiveness_period: c.bounty_forgiveness_period,
                period_for_opening_dispute: c.period_for_opening_dispute,
                categories: c.categories,
                tags: c.tags,
                platform_fee_percentage: c.platform_fee_percentage,
                validators_dao_fee_percentage: c.validators_dao_fee_percentage,
                penalty_platform_fee_percentage: c.penalty_platform_fee_percentage,
                penalty_validators_dao_fee_percentage: c.penalty_validators_dao_fee_percentage,
                currencies: c.currencies,
                use_owners_whitelist: false,
            },
            VersionedConfig::Current(c) => r == c,
        }
    }

    fn upgrade_v1_to_v2(config: ConfigV1) -> (r: ConfigV2)
        ensures
            r.bounty_claim_bond == config.bounty_claim_bond,
            r.bounty_forgiveness_period == config.bounty_forgiveness_period,
            r.period_for_opening_dispute == config.period_for_opening_dispute,
            r.categories == config.categories,
            r.tags == config.tags,
            r.platform_fee_percentage == config.platform_fee_percentage,
            r.validators_dao_fee_percentage == config.validators_dao_fee_percentage,
            r.penalty_platform_fee_percentage == config.penalty_platform_fee_percentage,
            r.penalty_validators_dao_fee_percentage == config.penalty_validators_dao_fee_percentage,
            r.currencies@.len() == 0,
    {
        ConfigV2 {
            bounty_claim_bond: config.bounty_claim_bond,
            bounty_forgiveness_period: config.bounty_forgiveness_period,
            period_for_opening_dispute: config.period_for_opening_dispute,
            categories: config.categories,
            tags: config.tags,
            platform_fee_percentage: config.platform_fee_percentage,
            validators_dao_fee_percentage: config.validators_dao_fee_percentage,
            penalty_platform_fee_percentage: config.penalty_platform_fee_percentage,
            penalty_validators_dao_fee_percentage: config.penalty_validators_dao_fee_percentage,
            currencies: Vec::new(),
        }
    }

    fn upgrade_v2_to_v3(config: ConfigV2) -> (r: Config)
        ensures
            VersionedConfig::V2(config).upgrades_to(r),
    {
        Config {
            bounty_claim_bond: config.bounty_claim_bond,
            bounty_forgiveness_period: config.bounty_forgiveness_period,
            period_for_opening_dispute: config.period_for_opening_dispute,
            categories: config.categories,
            tags: config.tags,
            platform_fee_percentage: config.platform_fee_percentage,
            validators_dao_fee_percentage: config.validators_dao_fee_percentage,
            penalty_platform_fee_percentage: config.penalty_platform_fee_percentage,
            penalty_validators_dao_fee_percentage: config.penalty_validators_dao_fee_percentage,
            currencies: config.currencies,
            use_owners_whitelist: false,
        }
    }

    /// The configuration in the current version; older ones gain no currencies
    /// and do not use the owners whitelist.
    pub fn to_config(self) -> (r: Config)
        ensures
            self.upgrades_to(r),
    {
        match self {
            VersionedConfig::Current(config) => config,
            VersionedConfig::V1(config_v1) => VersionedConfig::upgrade_v2_to_v3(
                VersionedConfig::upgrade_v1_to_v2(config_v1),
            ),
            VersionedConfig::V2(config_v2) => VersionedConfig::upgrade_v2_to_v3(config_v2),
        }
    }
}

} // verus!
