//! The KYC whitelist contract: its administration, the services that record
//! verifications, and the queries of other contracts.
use vstd::prelude::*;
use vstd::hash_map::StringHashMap;
use crate::accounts::AccountId;
use crate::bounties::effects::CallContext;
use super::types::{
    Config, ProviderDetails, ServiceProfile, VerificationType, WhitelistEntry, first_where, position,
    lemma_first_where, provider_named, enabled_provider, profile_named, profile_of, profile_clash,
    entry_by, find_provider, find_enabled_provider, find_profile, find_clash, find_entry_by,
};

verus! {

/// Why the KYC whitelist refuses a request.
#[derive(Clone, Copy, Debug, PartialEq, Eq, Structural)]
pub enum KycError {
    NotAdmin,
    ProfileNotFound,
    ServiceNameRequired,
    ProfileExists,
    AccountInOtherProfile,
    NameInOtherProfile,
    ExpectedNameOrAccount,
    ProviderExists,
    ProviderNotFound,
    ProviderNotInUse,
}

impl KycError {
    /// The text of the message the contract fails with.
    pub open spec fn text(&self) -> Seq<char> {
        match self {
            KycError::NotAdmin => "Predecessor is not whitelist administrator"@,
            KycError::ProfileNotFound => "Service profile not found"@,
            KycError::ServiceNameRequired => "Service name required"@,
            KycError::ProfileExists => "Profile with this account or name already exists"@,
            KycError::AccountInOtherProfile => "Account is already used in another profile"@,
            KycError::NameInOtherProfile => "Name is already used in another profile"@,
            KycError::ExpectedNameOrAccount => "Expected either service_name or service_account"@,
            KycError::ProviderExists => "Provider with this name already exists"@,
            KycError::ProviderNotFound => "Provider not found"@,
            KycError::ProviderNotInUse => "The provider is not in use now"@,
        }
    }

    /// The message the contract fails with.
    pub fn message(&self) -> (r: &'static str)
        ensures
            r@ == self.text(),
    {
        match self {
            KycError::NotAdmin => "Predecessor is not whitelist administrator",
            KycError::ProfileNotFound => "Service profile not found",
            KycError::ServiceNameRequired => "Service name required",
            KycError::ProfileExists => "Profile with this account or name already exists",
            KycError::AccountInOtherProfile => "Account is already used in another profile",
            KycError::NameInOtherProfile => "Name is already used in another profile",
            KycError::ExpectedNameOrAccount => "Expected either service_name or service_account",
            KycError::ProviderExists => "Provider with this name already exists",
            KycError::ProviderNotFound => "Provider not found",
            KycError::ProviderNotInUse => "The provider is not in use now",
        }
    }
}

/// `es` once `e` is recorded: before the first entry of the same verification by the
/// same provider, or at the end where there is none.
pub open spec fn entries_after_add(es: Seq<WhitelistEntry>, e: WhitelistEntry) -> Seq<WhitelistEntry> {
    match position(es, entry_by(e.verification_type, e.provider@)) {
        Some(i) => es.insert(i, e),
        None => es.push(e),
    }
}

/// `es` without its first entry of the verification `verification_type` by `provider`.
pub open spec fn entries_after_remove(es: Seq<WhitelistEntry>, verification_type: VerificationType, provider: Seq<char>) -> Seq<WhitelistEntry> {
    match position(es, entry_by(verification_type, provider)) {
        Some(i) => es.remove(i),
        None => es,
    }
}

/// Where `p` holds somewhere in `s`, it has a first position.
pub proof fn lemma_first_exists<T>(s: Seq<T>, p: spec_fn(T) -> bool, j: int)
    requires
        0 <= j < s.len(),
        p(s[j]),
    ensures
        position(s, p) is Some,
    decreases j,
{
    if forall|k: int| 0 <= k < j ==> !p(#[trigger] s[k]) {
        lemma_first_where(s, p, j);
    } else {
        let k = choose|k: int| 0 <= k < j && p(#[trigger] s[k]);
        lemma_first_exists(s, p, k);
    }
}

/// Recording a verification and then removing the same verification (same type, same
/// provider) gives back the entries of the account as they were.
pub proof fn lemma_add_then_remove(es: Seq<WhitelistEntry>, e: WhitelistEntry)
    ensures
        entries_after_remove(entries_after_add(es, e), e.verification_type, e.provider@) == es,
{
    let p = entry_by(e.verification_type, e.provider@);
    let added = entries_after_add(es, e);
    match position(es, p) {
        Some(i) => {
            let k = choose|k: int| first_where(es, p, k);
            assert(first_where(es, p, k));
            assert(k == i);
            assert forall|j: int| 0 <= j < i implies !p(#[trigger] added[j]) by {
                assert(added[j] == es[j]);
            }
            assert(p(added[i]));
            lemma_first_where(added, p, i);
            assert(added.remove(i) =~= es);
        },
        None => {
            assert forall|j: int| 0 <= j < es.len() implies !p(#[trigger] es[j]) by {
                if p(es[j]) {
                    lemma_first_exists(es, p, j);
                }
            }
            let n = es.len() as int;
            assert forall|j: int| 0 <= j < n implies !p(#[trigger] added[j]) by {
                assert(added[j] == es[j]);
            }
            assert(p(added[n]));
            lemma_first_where(added, p, n);
            assert(added.remove(n) =~= es);
        },
    }
}

fn copy_entries(v: &Vec<WhitelistEntry>) -> (r: Vec<WhitelistEntry>)
    ensures
        r@ == v@,
{
    let mut r: Vec<WhitelistEntry> = Vec::new();
    let mut i: usize = 0;
    while i < v.len()
        invariant
            i <= v@.len(),
            r@ == v@.subrange(0, i as int),
        decreases v@.len() - i,
    {
        r.push(v[i].copy());
        i = i + 1;
        proof { assert(r@ =~= v@.subrange(0, i as int)); }
    }
    proof { assert(r@ =~= v@); }
    r
}

pub struct KycWhitelist {
    /// The account that manages providers and profiles.
    pub admin_account: AccountId,
    /// The verifications of each account.
    pub whitelist: StringHashMap<Vec<WhitelistEntry>>,
    pub config: Config,
}

impl KycWhitelist {
    /// The verifications of `account`.
    pub open spec fn entries_of(&self, account: Seq<char>) -> Seq<WhitelistEntry> {
        if self.whitelist@.contains_key(account) {
            self.whitelist@[account]@
        } else {
            Seq::empty()
        }
    }

    /// An enabled provider is named `name`.
    pub open spec fn provider_found(&self, name: Seq<char>) -> bool {
        position(self.config.providers@, enabled_provider(name)) is Some
    }

    /// The profile a query uses: the one named `service_name`, or the default one.
    /// A query fails without a default profile, even where it names a profile.
    pub open spec fn query_profile(&self, service_name: Option<String>) -> Result<ServiceProfile, KycError> {
        match self.config.default_profile {
            None => Err(KycError::ServiceNameRequired),
            Some(d) => {
                let name = match service_name {
                    Some(n) => n@,
                    None => d@,
                };
                match position(self.config.service_profiles@, profile_named(name)) {
                    Some(i) => Ok(self.config.service_profiles@[i]),
                    None => Err(KycError::ProfileNotFound),
                }
            },
        }
    }

    /// The entry `e` counts for `profile` at time `now`: its provider is enabled and
    /// trusted by the profile, and its document has not expired.
    pub open spec fn counts(&self, profile: ServiceProfile, e: WhitelistEntry, now: u64) -> bool {
        &&& self.provider_found(e.provider@)
        &&& profile.uses(e.provider@)
        &&& (e.ident_document_date_of_expiry matches Some(t) ==> now < t)
    }

    /// The entries of `es` whose provider is trusted by `profile` and enabled.
    pub open spec fn kept(&self, profile: ServiceProfile, es: Seq<WhitelistEntry>) -> Seq<WhitelistEntry>
        decreases es.len(),
    {
        if es.len() == 0 {
            Seq::empty()
        } else if profile.uses(es.last().provider@) && self.provider_found(es.last().provider@) {
            self.kept(profile, es.drop_last()).push(es.last())
        } else {
            self.kept(profile, es.drop_last())
        }
    }

    /// A whitelist managed by `admin_account`, with `config` or an empty configuration.
    pub fn new(admin_account: AccountId, config: Option<Config>) -> (r: KycWhitelist)
        ensures
            r.admin_account == admin_account,
            r.whitelist@ == Map::<Seq<char>, Vec<WhitelistEntry>>::empty(),
            config matches Some(c) ==> r.config == c,
            config is None ==> r.config.providers@.len() == 0 && r.config.service_profiles@.len() == 0
                && r.config.default_profile is None,
    {
        let config = match config {
            Some(c) => c,
            None => Config::new_empty(),
        };
        KycWhitelist { admin_account, whitelist: StringHashMap::new(), config }
    }

    pub fn assert_is_whitelist_admin(&self, ctx: &CallContext) -> (r: Result<(), KycError>)
        ensures
            r is Ok <==> ctx.predecessor@ == self.admin_account@,
            r matches Err(e) ==> e == KycError::NotAdmin,
    {
        if ctx.predecessor == self.admin_account {
            Ok(())
        } else {
            Err(KycError::NotAdmin)
        }
    }

    /// The profile named `name`.
    pub fn find_profile_by_alias(&self, name: &String) -> (r: Result<&ServiceProfile, KycError>)
        ensures
            r is Ok <==> position(self.config.service_profiles@, profile_named(name@)) is Some,
            r matches Ok(p) ==> *p == self.config.service_profiles@[position(self.config.service_profiles@, profile_named(name@))->0],
            r matches Err(e) ==> e == KycError::ProfileNotFound,
    {
        match find_profile(&self.config.service_profiles, name, true) {
            Some(i) => {
                proof { lemma_first_where(self.config.service_profiles@, profile_named(name@), i as int); }
                Ok(&self.config.service_profiles[i])
            },
            None => Err(KycError::ProfileNotFound),
        }
    }

    /// The profile of the service account `account`.
    pub fn find_profile_by_account(&self, account: &AccountId) -> (r: Result<&ServiceProfile, KycError>)
        ensures
            r is Ok <==> position(self.config.service_profiles@, profile_of(account@)) is Some,
            r matches Ok(p) ==> *p == self.config.service_profiles@[position(self.config.service_profiles@, profile_of(account@))->0],
            r matches Err(e) ==> e == KycError::ProfileNotFound,
    {
        match find_profile(&self.config.service_profiles, account, false) {
            Some(i) => {
                proof { lemma_first_where(self.config.service_profiles@, profile_of(account@), i as int); }
                Ok(&self.config.service_profiles[i])
            },
            None => Err(KycError::ProfileNotFound),
        }
    }

    /// The position of the profile named by exactly one of `service_name` and
    /// `service_account`.
    pub open spec fn profile_index(config: Config, service_name: Option<String>, service_account: Option<AccountId>) -> Result<int, KycError> {
        if service_name is Some == service_account is Some {
            Err(KycError::ExpectedNameOrAccount)
        } else {
            let p = match service_name {
                Some(n) => profile_named(n@),
                None => profile_of(service_account->0@),
            };
            match position(config.service_profiles@, p) {
                Some(i) => Ok(i),
                None => Err(KycError::ProfileNotFound),
            }
        }
    }

    pub fn find_profile_index(config: &Config, service_name: &Option<String>, service_account: &Option<AccountId>) -> (r: Result<usize, KycError>)
        ensures
            match Self::profile_index(*config, *service_name, *service_account) {
                Ok(i) => r == Ok::<usize, KycError>(i as usize) && 0 <= i < config.service_profiles.len(),
                Err(e) => r == Err::<usize, KycError>(e),
            },
    {
        if service_name.is_some() == service_account.is_some() {
            return Err(KycError::ExpectedNameOrAccount);
        }
        let found = match service_name {
            Some(n) => find_profile(&config.service_profiles, n, true),
            None => match service_account {
                Some(a) => find_profile(&config.service_profiles, a, false),
                None => None,
            },
        };
        match found {
            Some(i) => {
                proof {
                    let p = if service_name is Some {
                        profile_named(service_name->0@)
                    } else {
                        profile_of(service_account->0@)
                    };
                    lemma_first_where(config.service_profiles@, p, i as int);
                }
                Ok(i)
            },
            None => Err(KycError::ProfileNotFound),
        }
    }

    /// Whether an enabled provider is named `name`.
    pub fn provider_is_found(&self, name: &String) -> (r: bool)
        ensures
            r == self.provider_found(name@),
    {
        find_enabled_provider(&self.config.providers, name)
    }

    /// The first reason why the caller of `ctx` cannot record verifications by `provider`.
    pub open spec fn service_error(&self, ctx: CallContext, provider: Seq<char>) -> Option<KycError> {
        match position(self.config.service_profiles@, profile_of(ctx.predecessor@)) {
            None => Some(KycError::ProfileNotFound),
            Some(i) => if self.provider_found(provider) && self.config.service_profiles@[i].uses(provider) {
                None
            } else {
                Some(KycError::ProviderNotInUse)
            },
        }
    }

    pub fn check_service_profile(&self, ctx: &CallContext, provider: &String) -> (r: Result<(), KycError>)
        ensures
            r is Err <==> self.service_error(*ctx, provider@) is Some,
            r matches Err(e) ==> self.service_error(*ctx, provider@) == Some(e),
    {
        let profile = self.find_profile_by_account(&ctx.predecessor)?;
        if self.provider_is_found(provider) && profile.uses_provider(provider) {
            Ok(())
        } else {
            Err(KycError::ProviderNotInUse)
        }
    }

    /// The profile a query names, or the default one.
    pub fn get_default_profile(&self, service_name: &Option<String>) -> (r: Result<&ServiceProfile, KycError>)
        ensures
            match self.query_profile(*service_name) {
                Ok(p) => r matches Ok(q) && *q == p,
                Err(e) => r == Err::<&ServiceProfile, KycError>(e),
            },
    {
        let default = match &self.config.default_profile {
            Some(d) => d,
            None => { return Err(KycError::ServiceNameRequired); },
        };
        let name = match service_name {
            Some(n) => n,
            None => default,
        };
        self.find_profile_by_alias(name)
    }

    /// The entries of `account`, with the position of the first one of the
    /// verification `verification_type` by `provider`.
    pub fn find_whitelist_entry(&self, account: &AccountId, verification_type: VerificationType, provider: &String) -> (r: (Vec<WhitelistEntry>, Option<usize>))
        ensures
            r.0@ == self.entries_of(account@),
            r.1 matches Some(i) ==> position(r.0@, entry_by(verification_type, provider@)) == Some(i as int)
                && i < r.0@.len(),
            r.1 is None ==> position(r.0@, entry_by(verification_type, provider@)) is None,
    {
        let entries = match self.whitelist.get(account.as_str()) {
            Some(v) => copy_entries(v),
            None => Vec::new(),
        };
        let index = find_entry_by(&entries, verification_type, provider);
        proof {
            if let Some(i) = index {
                lemma_first_where(entries@, entry_by(verification_type, provider@), i as int);
            }
        }
        (entries, index)
    }

    /// Whether `account` has a verification that counts, at time `now`, for the profile
    /// named `service_name` (the default profile if none).
    pub fn is_whitelisted(&self, now: u64, account_id: &AccountId, service_name: &Option<String>) -> (r: Result<bool, KycError>)
        ensures
            match self.query_profile(*service_name) {
                Ok(p) => r == Ok::<bool, KycError>(exists|k: int| 0 <= k < self.entries_of(account_id@).len()
                    && self.counts(p, #[trigger] self.entries_of(account_id@)[k], now)),
                Err(e) => r == Err::<bool, KycError>(e),
            },
    {
        let profile = self.get_default_profile(service_name)?;
        let entries = match self.whitelist.get(account_id.as_str()) {
            Some(v) => v,
            None => {
                return Ok(false);
            },
        };
        let ghost es = self.entries_of(account_id@);
        let mut i: usize = 0;
        while i < entries.len()
            invariant
                i <= entries@.len(),
                entries@ == es,
                es == self.entries_of(account_id@),
                self.query_profile(*service_name) == Ok::<ServiceProfile, KycError>(*profile),
                forall|k: int| 0 <= k < i ==> !self.counts(*profile, #[trigger] es[k], now),
            decreases entries@.len() - i,
        {
            let e = &entries[i];
            let not_expired = match e.ident_document_date_of_expiry {
                Some(t) => now < t,
                None => true,
            };
            if self.provider_is_found(&e.provider) && profile.uses_provider(&e.provider) && not_expired {
                assert(self.counts(*profile, self.entries_of(account_id@)[i as int], now));
                return Ok(true);
            }
            i = i + 1;
        }
        Ok(false)
    }

    /// The entries of `account` whose provider is trusted by the profile named
    /// `service_name` (the default profile if none) and enabled.
    pub fn get_whitelist_entry(&self, account_id: &AccountId, service_name: &Option<String>) -> (r: Result<Vec<WhitelistEntry>, KycError>)
        ensures
            match self.query_profile(*service_name) {
                Ok(p) => r matches Ok(v) && v@ == self.kept(p, self.entries_of(account_id@)),
                Err(e) => r == Err::<Vec<WhitelistEntry>, KycError>(e),
            },
    {
        let profile = self.get_default_profile(service_name)?;
        let entries = match self.whitelist.get(account_id.as_str()) {
            Some(v) => copy_entries(v),
            None => Vec::new(),
        };
        let ghost es = self.entries_of(account_id@);
        let mut r: Vec<WhitelistEntry> = Vec::new();
        let mut i: usize = 0;
        while i < entries.len()
            invariant
                i <= entries@.len(),
                entries@ == es,
                r@ == self.kept(*profile, es.subrange(0, i as int)),
            decreases entries@.len() - i,
        {
            let e = &entries[i];
            proof {
                assert(es.subrange(0, i + 1).drop_last() =~= es.subrange(0, i as int));
                assert(es.subrange(0, i + 1).last() == es[i as int]);
            }
            if profile.uses_provider(&e.provider) && self.provider_is_found(&e.provider) {
                r.push(e.copy());
            }
            i = i + 1;
        }
        proof { assert(es.subrange(0, es.len() as int) =~= es); }
        Ok(r)
    }

    pub fn get_config(&self) -> (r: &Config)
        ensures
            r == &self.config,
    {
        &self.config
    }

    pub fn get_version() -> (r: &'static str)
        ensures
            r@ == "2.0.0"@,
    {
        "2.0.0"
    }

    /// The admin adds the profile `service_profile`; its account and its name must be new.
    pub fn create_service_profile(&mut self, ctx: &CallContext, service_profile: ServiceProfile) -> (r: Result<(), KycError>)
        ensures
            r is Err <==> ctx.predecessor@ != old(self).admin_account@
                || position(old(self).config.service_profiles@, profile_clash(service_profile)) is Some,
            r matches Err(e) ==> e == (if ctx.predecessor@ != old(self).admin_account@ {
                KycError::NotAdmin
            } else {
                KycError::ProfileExists
            }) && *final(self) == *old(self),
            r is Ok ==> final(self).config.service_profiles@ == old(self).config.service_profiles@.push(service_profile)
                && final(self).config.providers == old(self).config.providers
                && final(self).config.default_profile == old(self).config.default_profile
                && final(self).admin_account == old(self).admin_account
                && final(self).whitelist == old(self).whitelist,
    {
        self.assert_is_whitelist_admin(ctx)?;
        if find_clash(&self.config.service_profiles, &service_profile) {
            return Err(KycError::ProfileExists);
        }
        self.config.service_profiles.push(service_profile);
        Ok(())
    }

    /// The first reason why the profile named by `service_name` or `service_account`
    /// cannot be replaced by `sp`, or the position of that profile.
    pub open spec fn update_profile_check(&self, service_name: Option<String>, service_account: Option<AccountId>, sp: ServiceProfile) -> Result<int, KycError> {
        match Self::profile_index(self.config, service_name, service_account) {
            Err(e) => Err(e),
            Ok(i) => {
                let profiles = self.config.service_profiles@;
                if position(profiles, profile_of(sp.service_account@)) matches Some(j) && j != i {
                    Err(KycError::AccountInOtherProfile)
                } else if position(profiles, profile_named(sp.service_name@)) matches Some(j) && j != i {
                    Err(KycError::NameInOtherProfile)
                } else {
                    Ok(i)
                }
            },
        }
    }

    /// The admin replaces the profile named by `service_name` or `service_account`
    /// (exactly one of them); no other profile may have the account or the name of the
    /// new one.
    pub fn update_service_profile(
        &mut self,
        ctx: &CallContext,
        service_name: Option<String>,
        service_account: Option<AccountId>,
        service_profile: ServiceProfile,
    ) -> (r: Result<(), KycError>)
        ensures
            ctx.predecessor@ != old(self).admin_account@ ==> r == Err::<(), KycError>(KycError::NotAdmin),
            ctx.predecessor@ == old(self).admin_account@ ==> match old(self).update_profile_check(service_name, service_account, service_profile) {
                Err(e) => r == Err::<(), KycError>(e),
                Ok(i) => r is Ok && final(self).config.service_profiles@ == old(self).config.service_profiles@.update(i, service_profile),
            },
            r is Err ==> *final(self) == *old(self),
            r is Ok ==> final(self).config.providers == old(self).config.providers
                && final(self).config.default_profile == old(self).config.default_profile
                && final(self).admin_account == old(self).admin_account
                && final(self).whitelist == old(self).whitelist,
    {
        self.assert_is_whitelist_admin(ctx)?;
        let index = match Self::find_profile_index(&self.config, &service_name, &service_account) {
            Ok(i) => i,
            Err(e) => { return Err(e); },
        };
        let by_account = find_profile(&self.config.service_profiles, &service_profile.service_account, false);
        proof {
            if let Some(j) = by_account {
                lemma_first_where(self.config.service_profiles@, profile_of(service_profile.service_account@), j as int);
            }
        }
        if let Some(j) = by_account {
            if j != index {
                return Err(KycError::AccountInOtherProfile);
            }
        }
        let by_name = find_profile(&self.config.service_profiles, &service_profile.service_name, true);
        proof {
            if let Some(j) = by_name {
                lemma_first_where(self.config.service_profiles@, profile_named(service_profile.service_name@), j as int);
            }
        }
        if let Some(j) = by_name {
            if j != index {
                proof {
                    let profiles = self.config.service_profiles@;
                    assert(!(position(profiles, profile_of(service_profile.service_account@)) matches Some(k) && k != index as int));
                    assert(position(profiles, profile_named(service_profile.service_name@)) == Some(j as int));
                    assert(Self::profile_index(self.config, service_name, service_account) == Ok::<int, KycError>(index as int));
                    assert(self.update_profile_check(service_name, service_account, service_profile) == Err::<int, KycError>(KycError::NameInOtherProfile));
                }
                return Err(KycError::NameInOtherProfile);
            }
        }
        self.config.service_profiles.set(index, service_profile);
        Ok(())
    }

    /// The admin removes the profile named by `service_name` or `service_account`.
    pub fn remove_service_profile(
        &mut self,
        ctx: &CallContext,
        service_name: Option<String>,
        service_account: Option<AccountId>,
    ) -> (r: Result<(), KycError>)
        ensures
            ctx.predecessor@ != old(self).admin_account@ ==> r == Err::<(), KycError>(KycError::NotAdmin),
            ctx.predecessor@ == old(self).admin_account@ ==> match Self::profile_index(old(self).config, service_name, service_account) {
                Err(e) => r == Err::<(), KycError>(e),
                Ok(i) => r is Ok && final(self).config.service_profiles@ == old(self).config.service_profiles@.remove(i),
            },
            r is Err ==> *final(self) == *old(self),
            r is Ok ==> final(self).config.providers == old(self).config.providers
                && final(self).config.default_profile == old(self).config.default_profile
                && final(self).admin_account == old(self).admin_account
                && final(self).whitelist == old(self).whitelist,
    {
        self.assert_is_whitelist_admin(ctx)?;
        let index = Self::find_profile_index(&self.config, &service_name, &service_account)?;
        self.config.service_profiles.remove(index);
        Ok(())
    }

    /// The admin adds the provider `provider`; its name must be new.
    pub fn create_provider(&mut self, ctx: &CallContext, provider: ProviderDetails) -> (r: Result<(), KycError>)
        ensures
            r is Err <==> ctx.predecessor@ != old(self).admin_account@
                || position(old(self).config.providers@, provider_named(provider.name@)) is Some,
            r matches Err(e) ==> e == (if ctx.predecessor@ != old(self).admin_account@ {
                KycError::NotAdmin
            } else {
                KycError::ProviderExists
            }) && *final(self) == *old(self),
            r is Ok ==> final(self).config.providers@ == old(self).config.providers@.push(provider)
                && final(self).config.service_profiles == old(self).config.service_profiles
                && final(self).config.default_profile == old(self).config.default_profile
                && final(self).admin_account == old(self).admin_account
                && final(self).whitelist == old(self).whitelist,
    {
        self.assert_is_whitelist_admin(ctx)?;
        if find_provider(&self.config.providers, &provider.name).is_some() {
            return Err(KycError::ProviderExists);
        }
        self.config.providers.push(provider);
        Ok(())
    }

    /// The admin replaces the provider named `name`.
    pub fn update_provider(&mut self, ctx: &CallContext, name: String, provider: ProviderDetails) -> (r: Result<(), KycError>)
        ensures
            r is Err <==> ctx.predecessor@ != old(self).admin_account@
                || position(old(self).config.providers@, provider_named(name@)) is None,
            r matches Err(e) ==> e == (if ctx.predecessor@ != old(self).admin_account@ {
                KycError::NotAdmin
            } else {
                KycError::ProviderNotFound
            }) && *final(self) == *old(self),
            r is Ok ==> final(self).config.providers@ == old(self).config.providers@.update(
                    position(old(self).config.providers@, provider_named(name@))->0, provider)
                && final(self).config.service_profiles == old(self).config.service_profiles
                && final(self).config.default_profile == old(self).config.default_profile
                && final(self).admin_account == old(self).admin_account
                && final(self).whitelist == old(self).whitelist,
    {
        self.assert_is_whitelist_admin(ctx)?;
        let index = match find_provider(&self.config.providers, &name) {
            Some(i) => i,
            None => { return Err(KycError::ProviderNotFound); },
        };
        proof { lemma_first_where(self.config.providers@, provider_named(name@), index as int); }
        self.config.providers.set(index, provider);
        Ok(())
    }

    /// The admin removes the provider named `name`.
    pub fn remove_provider(&mut self, ctx: &CallContext, name: String) -> (r: Result<(), KycError>)
        ensures
            r is Err <==> ctx.predecessor@ != old(self).admin_account@
                || position(old(self).config.providers@, provider_named(name@)) is None,
            r matches Err(e) ==> e == (if ctx.predecessor@ != old(self).admin_account@ {
                KycError::NotAdmin
            } else {
                KycError::ProviderNotFound
            }) && *final(self) == *old(self),
            r is Ok ==> final(self).config.providers@ == old(self).config.providers@.remove(
                    position(old(self).config.providers@, provider_named(name@))->0)
                && final(self).config.service_profiles == old(self).config.service_profiles
                && final(self).config.default_profile == old(self).config.default_profile
                && final(self).admin_account == old(self).admin_account
                && final(self).whitelist == old(self).whitelist,
    {
        self.assert_is_whitelist_admin(ctx)?;
        let index = match find_provider(&self.config.providers, &name) {
            Some(i) => i,
            None => { return Err(KycError::ProviderNotFound); },
        };
        proof { lemma_first_where(self.config.providers@, provider_named(name@), index as int); }
        self.config.providers.remove(index);
        Ok(())
    }

    /// The admin sets or unsets the default profile.
    pub fn set_default_profile(&mut self, ctx: &CallContext, service_name: Option<String>) -> (r: Result<(), KycError>)
        ensures
            r is Ok <==> ctx.predecessor@ == old(self).admin_account@,
            r matches Err(e) ==> e == KycError::NotAdmin && *final(self) == *old(self),
            r is Ok ==> final(self).config.default_profile == service_name
                && final(self).config.providers == old(self).config.providers
                && final(self).config.service_profiles == old(self).config.service_profiles
                && final(self).admin_account == old(self).admin_account
                && final(self).whitelist == old(self).whitelist,
    {
        self.assert_is_whitelist_admin(ctx)?;
        self.config.default_profile = service_name;
        Ok(())
    }

    /// The whitelist differs from `old` at most in the entries of `account`, which are `es`.
    pub open spec fn entries_set(&self, old: &Self, account: Seq<char>, es: Seq<WhitelistEntry>) -> bool {
        &&& self.entries_of(account) == es
        &&& forall|a: Seq<char>| a != account ==> #[trigger] self.entries_of(a) == old.entries_of(a)
        &&& self.admin_account == old.admin_account
        &&& self.config == old.config
    }

    fn save_entries(&mut self, account: &AccountId, entries: Vec<WhitelistEntry>)
        ensures
            final(self).entries_set(&*old(self), account@, entries@),
    {
        if entries.len() == 0 {
            self.whitelist.remove(account.as_str());
            proof { assert(entries@ =~= Seq::<WhitelistEntry>::empty()); }
        } else {
            self.whitelist.insert(account.clone(), entries);
        }
    }

    /// A service records that `account_id` was verified at the time of `ctx` by
    /// `provider`, a provider it trusts; the entry goes before the first entry of the
    /// same verification by the same provider.
    pub fn add_account(
        &mut self,
        ctx: &CallContext,
        account_id: AccountId,
        verification_type: VerificationType,
        provider: String,
        ident_document_date_of_expiry: Option<u64>,
    ) -> (r: Result<bool, KycError>)
        ensures
            r is Err <==> old(self).service_error(*ctx, provider@) is Some,
            r matches Err(e) ==> old(self).service_error(*ctx, provider@) == Some(e) && *final(self) == *old(self),
            r matches Ok(b) ==> b && final(self).entries_set(&*old(self), account_id@, entries_after_add(
                old(self).entries_of(account_id@),
                WhitelistEntry {
                    verification_date: ctx.block_timestamp,
                    verification_type,
                    provider,
                    ident_document_date_of_expiry,
                },
            )),
    {
        self.check_service_profile(ctx, &provider)?;
        let (mut entries, index) = self.find_whitelist_entry(&account_id, verification_type, &provider);
        let entry = WhitelistEntry {
            verification_date: ctx.block_timestamp,
            verification_type,
            provider,
            ident_document_date_of_expiry,
        };
        match index {
            Some(i) => { entries.insert(i, entry); },
            None => { entries.push(entry); },
        }
        self.save_entries(&account_id, entries);
        Ok(true)
    }

    /// A service removes the first entry of `account_id` of the verification
    /// `verification_type` by `provider`, a provider it trusts.
    pub fn remove_account(
        &mut self,
        ctx: &CallContext,
        account_id: AccountId,
        verification_type: VerificationType,
        provider: String,
    ) -> (r: Result<bool, KycError>)
        ensures
            r is Err <==> old(self).service_error(*ctx, provider@) is Some,
            r matches Err(e) ==> old(self).service_error(*ctx, provider@) == Some(e) && *final(self) == *old(self),
            r matches Ok(b) ==> b && final(self).entries_set(&*old(self), account_id@, entries_after_remove(
                old(self).entries_of(account_id@),
                verification_type,
                provider@,
            )),
    {
        self.check_service_profile(ctx, &provider)?;
        let (mut entries, index) = self.find_whitelist_entry(&account_id, verification_type, &provider);
        match index {
            Some(i) => {
                entries.remove(i);
                self.save_entries(&account_id, entries);
            },
            None => {},
        }
        Ok(true)
    }
}

} // verus!
