//! The API client's state: the OAuth client identifier, the current token
//! pair with its refresh deadline, the cached home identifier, and the
//! endpoint bases. Network transport lives outside the library; the methods
//! here build requests, apply responses, and keep the session bookkeeping,
//! each with an exact contract.

use vstd::prelude::*;
use vstd::string::StringExecFns;

use crate::api::{AuthTokensResponse, MeApiResponse, WeatherApiResponse, ZonesApiResponse};
use crate::date::{format_date, Date};
use crate::decimal::{dec_int_of, i32_to_dec};
use crate::model::{Weather, ZoneState};
use crate::REFRESH_SAFETY_MARGIN_SECS;

verus! {

/// The mathematical value of a token pair: both token strings and the
/// validity in seconds that the token endpoint reported.
#[verifier::ext_equal]
pub struct TokensModel {
    pub access_token: Seq<char>,
    pub expires_in: u64,
    pub refresh_token: Seq<char>,
}

impl View for AuthTokensResponse {
    type V = TokensModel;

    open spec fn view(&self) -> TokensModel {
        TokensModel {
            access_token: self.access_token@,
            expires_in: self.expires_in,
            refresh_token: self.refresh_token@,
        }
    }
}

/// The mathematical value of a [`Client`].
#[verifier::ext_equal]
pub struct ClientModel {
    pub base_url: Seq<char>,
    pub hops_url: Seq<char>,
    pub client_id: Seq<char>,
    pub tokens: TokensModel,
    pub tokens_refresh_by: u64,
    pub tokens_loaded: bool,
    pub home_id: Option<i32>,
}

/// `a + b`, capped at the largest representable instant.
pub open spec fn spec_saturating_add(a: u64, b: u64) -> u64 {
    if a + b <= u64::MAX {
        (a + b) as u64
    } else {
        u64::MAX
    }
}

/// The refresh deadline of tokens issued at `now` with validity
/// `expires_in`: the validity reduced by the safety margin (or all of it,
/// for a validity within the margin), added to the issuance time.
pub open spec fn spec_refresh_deadline(now: u64, expires_in: u64) -> u64 {
    let reduced: u64 = if expires_in >= REFRESH_SAFETY_MARGIN_SECS {
        (expires_in - REFRESH_SAFETY_MARGIN_SECS) as u64
    } else {
        0u64
    };
    spec_saturating_add(now, reduced)
}

impl ClientModel {
    /// The client after new tokens are set at time `now`: the pair is
    /// replaced and the refresh deadline recomputed; nothing else changes.
    pub open spec fn with_tokens(self, t: TokensModel, now: u64) -> ClientModel {
        ClientModel {
            tokens: t,
            tokens_refresh_by: spec_refresh_deadline(now, t.expires_in),
            ..self
        }
    }

    /// The client after the persisted record was consulted: a stored pair
    /// replaces the empty one, absence of a record changes nothing, and
    /// either way the store is marked as consulted.
    pub open spec fn with_loaded(self, stored: Option<TokensModel>) -> ClientModel {
        match stored {
            Some(t) => ClientModel { tokens: t, tokens_loaded: true, ..self },
            None => ClientModel { tokens_loaded: true, ..self },
        }
    }

    /// A freshly constructed client: empty tokens, a refresh deadline in the
    /// past, the store not yet consulted, no home resolved.
    pub open spec fn fresh(base_url: Seq<char>, hops_url: Seq<char>, client_id: Seq<char>) -> ClientModel {
        ClientModel {
            base_url,
            hops_url,
            client_id,
            tokens: TokensModel {
                access_token: Seq::empty(),
                expires_in: 0,
                refresh_token: Seq::empty(),
            },
            tokens_refresh_by: 0,
            tokens_loaded: false,
            home_id: None,
        }
    }
}

/// The default REST API base.
pub open spec fn spec_base_url() -> Seq<char> {
    "https://my.tado.com/api/v2/"@
}

/// The default base of the rooms directory service.
pub open spec fn spec_hops_url() -> Seq<char> {
    "https://hops.tado.com/"@
}

/// The authenticated API client's state. One instance lives for the whole
/// process; transport code performs the requests this state decides on.
pub struct Client {
    pub base_url: String,
    pub hops_url: String,
    pub client_id: String,
    pub tokens: AuthTokensResponse,
    pub tokens_refresh_by: u64,
    pub tokens_loaded: bool,
    pub home_id: Option<i32>,
}

impl View for Client {
    type V = ClientModel;

    open spec fn view(&self) -> ClientModel {
        ClientModel {
            base_url: self.base_url@,
            hops_url: self.hops_url@,
            client_id: self.client_id@,
            tokens: self.tokens@,
            tokens_refresh_by: self.tokens_refresh_by,
            tokens_loaded: self.tokens_loaded,
            home_id: self.home_id,
        }
    }
}

/// `a + b`, capped at the largest representable value.
pub fn saturating_add_u64(a: u64, b: u64) -> (r: u64)
    ensures
        r == spec_saturating_add(a, b),
{
    if b <= u64::MAX - a {
        a + b
    } else {
        u64::MAX
    }
}

impl Client {
    /// A client for the default endpoint bases.
    pub fn new(client_id: String) -> (c: Client)
        ensures
            c@ == ClientModel::fresh(spec_base_url(), spec_hops_url(), client_id@),
    {
        Client::with_base_url(
            "https://my.tado.com/api/v2/".to_owned(),
            "https://hops.tado.com/".to_owned(),
            client_id,
        )
    }

    /// A client for the given endpoint bases.
    pub fn with_base_url(base_url: String, hops_url: String, client_id: String) -> (c: Client)
        ensures
            c@ == ClientModel::fresh(base_url@, hops_url@, client_id@),
    {
        Client {
            base_url,
            hops_url,
            client_id,
            tokens: AuthTokensResponse {
                access_token: String::new(),
                expires_in: 0,
                refresh_token: String::new(),
            },
            tokens_refresh_by: 0,
            tokens_loaded: false,
            home_id: None,
        }
    }

    /// Replaces the session's tokens with a pair issued at `now` and
    /// recomputes the refresh deadline; the caller persists the same pair.
    pub fn set_tokens(&mut self, tokens: AuthTokensResponse, now: u64)
        ensures
            final(self)@ == old(self)@.with_tokens(tokens@, now),
    {
        let reduced: u64 = if tokens.expires_in >= REFRESH_SAFETY_MARGIN_SECS {
            tokens.expires_in - REFRESH_SAFETY_MARGIN_SECS
        } else {
            0
        };
        self.tokens_refresh_by = saturating_add_u64(now, reduced);
        self.tokens = tokens;
    }

    /// Whether a refresh is due at `now`: before the deadline the session is
    /// still good and no network attempt is needed.
    pub fn needs_refresh(&self, now: u64) -> (r: bool)
        ensures
            r == (now >= self@.tokens_refresh_by),
    {
        now >= self.tokens_refresh_by
    }

    /// The cached home identifier, if one was resolved.
    pub fn home_id(&self) -> (r: Option<i32>)
        ensures
            r == self@.home_id,
    {
        self.home_id
    }

    /// The account-metadata endpoint, relative to the API base.
    pub fn me_url(&self) -> (r: String)
        ensures
            r@ == self@.base_url + "me"@,
    {
        let mut s = self.base_url.clone();
        s.append("me");
        s
    }

    /// The zone-directory endpoint of the resolved home.
    pub fn zones_url(&self) -> (r: String)
        requires
            self@.home_id is Some,
        ensures
            self@.home_id matches Some(h) ==> r@ == self@.hops_url + "homes/"@ + dec_int_of(
                h as int,
            ) + "/rooms"@,
    {
        let h: i32 = match self.home_id {
            Some(h) => h,
            None => {
                proof {
                    assert(false);
                }
                0
            },
        };
        let mut s = self.hops_url.clone();
        s.append("homes/");
        let digits = i32_to_dec(h);
        s.append(digits.as_str());
        s.append("/rooms");
        s
    }

    /// The weather endpoint of the resolved home.
    pub fn weather_url(&self) -> (r: String)
        requires
            self@.home_id is Some,
        ensures
            self@.home_id matches Some(h) ==> r@ == self@.base_url + "homes/"@ + dec_int_of(
                h as int,
            ) + "/weather/"@,
    {
        let h: i32 = match self.home_id {
            Some(h) => h,
            None => {
                proof {
                    assert(false);
                }
                0
            },
        };
        let mut s = self.base_url.clone();
        s.append("homes/");
        let digits = i32_to_dec(h);
        s.append(digits.as_str());
        s.append("/weather/");
        s
    }

    /// The day-report endpoint of one zone for one calendar date.
    pub fn day_report_url(&self, zone_id: i32, date: Date) -> (r: String)
        requires
            self@.home_id is Some,
        ensures
            self@.home_id matches Some(h) ==> r@ == self@.base_url + "homes/"@ + dec_int_of(
                h as int,
            ) + "/zones/"@ + dec_int_of(zone_id as int) + "/dayReport?date="@ + date.spec_format(),
    {
        let h: i32 = match self.home_id {
            Some(h) => h,
            None => {
                proof {
                    assert(false);
                }
                0
            },
        };
        let mut s = self.base_url.clone();
        s.append("homes/");
        let home_digits = i32_to_dec(h);
        s.append(home_digits.as_str());
        s.append("/zones/");
        let zone_digits = i32_to_dec(zone_id);
        s.append(zone_digits.as_str());
        s.append("/dayReport?date=");
        let date_str = format_date(date);
        s.append(date_str.as_str());
        s
    }
}

/// The home identifier after an account-metadata answer is applied to a
/// client: an already-cached identifier is kept; otherwise the first home of
/// the answer is taken, and a missing answer or an empty homes list resolves
/// nothing.
pub open spec fn spec_resolved_home(c: ClientModel, me_response: Option<MeApiResponse>) -> Option<
    i32,
> {
    if c.home_id is Some {
        c.home_id
    } else {
        match me_response {
            Some(me) => if me.homes@.len() > 0 {
                Some(me.homes@[0].id)
            } else {
                None
            },
            None => None,
        }
    }
}

/// The zone states a poll tick yields: nothing without a resolved home or a
/// zone answer, else every zone of the answer converted, in order.
pub open spec fn spec_retrieved_zones(
    home_id: Option<i32>,
    zones_response: Option<Vec<ZonesApiResponse>>,
) -> Seq<ZoneState> {
    if home_id is Some {
        match zones_response {
            Some(zs) => zs@.map_values(|z: ZonesApiResponse| z.spec_convert()),
            None => Seq::empty(),
        }
    } else {
        Seq::empty()
    }
}

impl Client {
    /// Caches the home identifier from an account-metadata answer. The cache
    /// fills at most once: a resolved identifier is never replaced. A failed
    /// lookup or an account without homes leaves it unresolved, so a later
    /// tick retries.
    pub fn resolve_home_id(&mut self, me_response: Option<MeApiResponse>)
        ensures
            final(self)@ == (ClientModel {
                home_id: spec_resolved_home(old(self)@, me_response),
                ..old(self)@
            }),
    {
        if self.home_id.is_none() {
            if let Some(me) = me_response {
                if me.homes.len() > 0 {
                    self.home_id = Some(me.homes[0].id);
                }
            }
        }
    }

    /// One tick's zone retrieval, given the transport's answers: resolves
    /// the home identifier if still unresolved, then converts the zone
    /// directory. A missing answer degrades to an empty sequence, never to a
    /// partial one.
    pub fn retrieve_zones(
        &mut self,
        me_response: Option<MeApiResponse>,
        zones_response: Option<Vec<ZonesApiResponse>>,
    ) -> (r: Vec<ZoneState>)
        ensures
            final(self)@ == (ClientModel {
                home_id: spec_resolved_home(old(self)@, me_response),
                ..old(self)@
            }),
            r@ == spec_retrieved_zones(final(self)@.home_id, zones_response),
    {
        self.resolve_home_id(me_response);
        if self.home_id.is_none() {
            return Vec::new();
        }
        match zones_response {
            None => Vec::new(),
            Some(zs) => {
                let mut out: Vec<ZoneState> = Vec::new();
                let mut i: usize = 0;
                while i < zs.len()
                    invariant
                        i <= zs@.len(),
                        out@ == zs@.subrange(0, i as int).map_values(
                            |z: ZonesApiResponse| z.spec_convert(),
                        ),
                    decreases zs@.len() - i,
                {
                    out.push(zs[i].convert());
                    proof {
                        assert(zs@.subrange(0, i + 1 as int).drop_last() =~= zs@.subrange(
                            0,
                            i as int,
                        ));
                        assert(out@ =~= zs@.subrange(0, i + 1 as int).map_values(
                            |z: ZonesApiResponse| z.spec_convert(),
                        ));
                    }
                    i = i + 1;
                }
                proof {
                    assert(zs@.subrange(0, zs@.len() as int) =~= zs@);
                }
                out
            },
        }
    }

    /// One tick's weather retrieval, given the transport's answers: resolves
    /// the home identifier if still unresolved, then converts the weather
    /// answer; a missing answer degrades to absence.
    pub fn retrieve_weather(
        &mut self,
        me_response: Option<MeApiResponse>,
        weather_response: Option<WeatherApiResponse>,
    ) -> (r: Option<Weather>)
        ensures
            final(self)@ == (ClientModel {
                home_id: spec_resolved_home(old(self)@, me_response),
                ..old(self)@
            }),
            r == (if final(self)@.home_id is Some {
                match weather_response {
                    Some(w) => Some(w.spec_convert()),
                    None => None::<Weather>,
                }
            } else {
                None::<Weather>
            }),
    {
        self.resolve_home_id(me_response);
        if self.home_id.is_none() {
            return None;
        }
        match weather_response {
            None => None,
            Some(w) => Some(w.convert()),
        }
    }
}

/// The refresh deadline of tokens with validity `expires_in` set at `now` is
/// the issuance time plus the validity reduced by the safety margin — and
/// never later than that, whatever the validity.
pub proof fn lemma_refresh_deadline(c: ClientModel, t: TokensModel, now: u64)
    requires
        t.expires_in >= REFRESH_SAFETY_MARGIN_SECS,
    ensures
        c.with_tokens(t, now).tokens_refresh_by <= now + t.expires_in - REFRESH_SAFETY_MARGIN_SECS,
        now + t.expires_in - REFRESH_SAFETY_MARGIN_SECS <= u64::MAX ==> c.with_tokens(
            t,
            now,
        ).tokens_refresh_by == now + t.expires_in - REFRESH_SAFETY_MARGIN_SECS,
{
}

} // verus!
