use vstd::prelude::*;

verus! {

/// A recurring trading blackout window of an instrument. Day codes follow the
/// venue's convention: 0 denotes Sunday and 1..=7 denote Monday..Sunday.
/// The boundary times are `HH:MM:SS` texts.
pub struct DayOffWindow {
    pub dow_from: i32,
    pub time_from: String,
    pub dow_to: i32,
    pub time_to: String,
}

/// A trading instrument from the reference snapshot.
pub struct TradingInstrument {
    pub id: String,
    pub base: String,
    pub quote: String,
    pub days_off: Vec<DayOffWindow>,
    pub day_timeout: Option<u64>,
    pub night_timeout: Option<u64>,
}

/// A trading group from the reference snapshot.
pub struct TradingGroup {
    pub id: String,
    pub trading_profile_id: String,
}

/// The per-instrument policy of a trading profile.
pub struct TradingProfileInstrument {
    pub id: String,
    pub leverages: Vec<i32>,
    pub open_position_min_delay_ms: i32,
    pub open_position_max_delay_ms: i32,
}

/// A trading profile from the reference snapshot.
pub struct TradingProfile {
    pub id: String,
    pub is_a_book: bool,
    pub stop_out_percent: u32,
    pub instruments: Vec<TradingProfileInstrument>,
}

/// The latest bid/ask quote of one asset pair. Only what the orchestrator
/// reads is carried: the pair's identity, its legs, and the update time in
/// unix milliseconds.
pub struct BidAskSnapshot {
    pub id: String,
    pub base: String,
    pub quote: String,
    pub unix_timestamp_with_millis: u64,
}

/// A point-in-time view of the replicated read-only reference tables.
pub struct ReferenceSnapshot {
    pub instruments: Vec<TradingInstrument>,
    pub groups: Vec<TradingGroup>,
    pub profiles: Vec<TradingProfile>,
    pub bid_asks: Vec<BidAskSnapshot>,
}

/// Index of the first instrument whose id is `id`, scanning from `i`.
pub open spec fn instrument_index_from(s: Seq<TradingInstrument>, id: Seq<char>, i: int) -> Option<int>
    decreases s.len() - i,
{
    if i < 0 || i >= s.len() {
        None
    } else if s[i].id@ == id {
        Some(i)
    } else {
        instrument_index_from(s, id, i + 1)
    }
}

/// Index of the first instrument whose id is `id`.
pub open spec fn instrument_index(s: Seq<TradingInstrument>, id: Seq<char>) -> Option<int> {
    instrument_index_from(s, id, 0)
}

/// Index of the first group whose id is `id`, scanning from `i`.
pub open spec fn group_index_from(s: Seq<TradingGroup>, id: Seq<char>, i: int) -> Option<int>
    decreases s.len() - i,
{
    if i < 0 || i >= s.len() {
        None
    } else if s[i].id@ == id {
        Some(i)
    } else {
        group_index_from(s, id, i + 1)
    }
}

/// Index of the first group whose id is `id`.
pub open spec fn group_index(s: Seq<TradingGroup>, id: Seq<char>) -> Option<int> {
    group_index_from(s, id, 0)
}

/// Index of the first profile whose id is `id`, scanning from `i`.
pub open spec fn profile_index_from(s: Seq<TradingProfile>, id: Seq<char>, i: int) -> Option<int>
    decreases s.len() - i,
{
    if i < 0 || i >= s.len() {
        None
    } else if s[i].id@ == id {
        Some(i)
    } else {
        profile_index_from(s, id, i + 1)
    }
}

/// Index of the first profile whose id is `id`.
pub open spec fn profile_index(s: Seq<TradingProfile>, id: Seq<char>) -> Option<int> {
    profile_index_from(s, id, 0)
}

/// Index of the first per-instrument policy whose id is `id`, scanning from `i`.
pub open spec fn profile_instrument_index_from(
    s: Seq<TradingProfileInstrument>,
    id: Seq<char>,
    i: int,
) -> Option<int>
    decreases s.len() - i,
{
    if i < 0 || i >= s.len() {
        None
    } else if s[i].id@ == id {
        Some(i)
    } else {
        profile_instrument_index_from(s, id, i + 1)
    }
}

/// Index of the first per-instrument policy whose id is `id`.
pub open spec fn profile_instrument_index(s: Seq<TradingProfileInstrument>, id: Seq<char>) -> Option<int> {
    profile_instrument_index_from(s, id, 0)
}

/// Whether a quote pairs currencies `a` and `b`, in either direction.
pub open spec fn quote_pairs(q: BidAskSnapshot, a: Seq<char>, b: Seq<char>) -> bool {
    (q.base@ == a && q.quote@ == b) || (q.base@ == b && q.quote@ == a)
}

/// Index of the first quote pairing `a` and `b`, scanning from `i`.
pub open spec fn pair_quote_index_from(s: Seq<BidAskSnapshot>, a: Seq<char>, b: Seq<char>, i: int) -> Option<int>
    decreases s.len() - i,
{
    if i < 0 || i >= s.len() {
        None
    } else if quote_pairs(s[i], a, b) {
        Some(i)
    } else {
        pair_quote_index_from(s, a, b, i + 1)
    }
}

/// Index of the first quote pairing `a` and `b`.
pub open spec fn pair_quote_index(s: Seq<BidAskSnapshot>, a: Seq<char>, b: Seq<char>) -> Option<int> {
    pair_quote_index_from(s, a, b, 0)
}

/// Index of the first quote whose pair id is `id`, scanning from `i`.
pub open spec fn quote_index_from(s: Seq<BidAskSnapshot>, id: Seq<char>, i: int) -> Option<int>
    decreases s.len() - i,
{
    if i < 0 || i >= s.len() {
        None
    } else if s[i].id@ == id {
        Some(i)
    } else {
        quote_index_from(s, id, i + 1)
    }
}

/// Index of the first quote whose pair id is `id`.
pub open spec fn quote_index(s: Seq<BidAskSnapshot>, id: Seq<char>) -> Option<int> {
    quote_index_from(s, id, 0)
}

/// Whether `leverage` is one of the policy's allowed leverage multipliers.
pub open spec fn leverage_allowed(leverages: Seq<i32>, leverage: i32) -> bool {
    exists|i: int| 0 <= i < leverages.len() && leverages[i] == leverage
}

impl ReferenceSnapshot {
    /// Look up an instrument by asset-pair id; the first match wins.
    pub fn find_instrument(&self, id: &String) -> (r: Option<usize>)
        ensures
            match r {
                Some(i) => i < self.instruments@.len() && instrument_index(self.instruments@, id@) == Some(i as int),
                None => instrument_index(self.instruments@, id@) is None,
            },
    {
        let n = self.instruments.len();
        let mut idx: usize = 0;
        while idx < n
            invariant
                idx <= n,
                n == self.instruments@.len(),
                instrument_index(self.instruments@, id@) == instrument_index_from(
                    self.instruments@,
                    id@,
                    idx as int,
                ),
            decreases n - idx,
        {
            if self.instruments[idx].id == *id {
                return Some(idx);
            }
            idx += 1;
        }
        None
    }

    /// Look up a trading group by id; the first match wins.
    pub fn find_group(&self, id: &String) -> (r: Option<usize>)
        ensures
            match r {
                Some(i) => i < self.groups@.len() && group_index(self.groups@, id@) == Some(i as int),
                None => group_index(self.groups@, id@) is None,
            },
    {
        let n = self.groups.len();
        let mut idx: usize = 0;
        while idx < n
            invariant
                idx <= n,
                n == self.groups@.len(),
                group_index(self.groups@, id@) == group_index_from(self.groups@, id@, idx as int),
            decreases n - idx,
        {
            if self.groups[idx].id == *id {
                return Some(idx);
            }
            idx += 1;
        }
        None
    }

    /// Look up a trading profile by id; the first match wins.
    pub fn find_profile(&self, id: &String) -> (r: Option<usize>)
        ensures
            match r {
                Some(i) => i < self.profiles@.len() && profile_index(self.profiles@, id@) == Some(i as int),
                None => profile_index(self.profiles@, id@) is None,
            },
    {
        let n = self.profiles.len();
        let mut idx: usize = 0;
        while idx < n
            invariant
                idx <= n,
                n == self.profiles@.len(),
                profile_index(self.profiles@, id@) == profile_index_from(
                    self.profiles@,
                    id@,
                    idx as int,
                ),
            decreases n - idx,
        {
            if self.profiles[idx].id == *id {
                return Some(idx);
            }
            idx += 1;
        }
        None
    }

    /// Find the first quote pairing currencies `a` and `b`, in either direction.
    pub fn find_pair_quote(&self, a: &String, b: &String) -> (r: Option<usize>)
        ensures
            match r {
                Some(i) => i < self.bid_asks@.len() && pair_quote_index(self.bid_asks@, a@, b@) == Some(i as int),
                None => pair_quote_index(self.bid_asks@, a@, b@) is None,
            },
    {
        let n = self.bid_asks.len();
        let mut idx: usize = 0;
        while idx < n
            invariant
                idx <= n,
                n == self.bid_asks@.len(),
                pair_quote_index(self.bid_asks@, a@, b@) == pair_quote_index_from(
                    self.bid_asks@,
                    a@,
                    b@,
                    idx as int,
                ),
            decreases n - idx,
        {
            let q = &self.bid_asks[idx];
            if (q.base == *a && q.quote == *b) || (q.base == *b && q.quote == *a) {
                return Some(idx);
            }
            idx += 1;
        }
        None
    }

    /// Find the first quote of the asset pair `id`.
    pub fn find_quote(&self, id: &String) -> (r: Option<usize>)
        ensures
            match r {
                Some(i) => i < self.bid_asks@.len() && quote_index(self.bid_asks@, id@) == Some(i as int),
                None => quote_index(self.bid_asks@, id@) is None,
            },
    {
        let n = self.bid_asks.len();
        let mut idx: usize = 0;
        while idx < n
            invariant
                idx <= n,
                n == self.bid_asks@.len(),
                quote_index(self.bid_asks@, id@) == quote_index_from(self.bid_asks@, id@, idx as int),
            decreases n - idx,
        {
            if self.bid_asks[idx].id == *id {
                return Some(idx);
            }
            idx += 1;
        }
        None
    }
}

impl TradingProfile {
    /// Find this profile's policy for the asset pair `id`; the first match wins.
    pub fn find_instrument_policy(&self, id: &String) -> (r: Option<usize>)
        ensures
            match r {
                Some(i) => i < self.instruments@.len() && profile_instrument_index(self.instruments@, id@) == Some(i as int),
                None => profile_instrument_index(self.instruments@, id@) is None,
            },
    {
        let n = self.instruments.len();
        let mut idx: usize = 0;
        while idx < n
            invariant
                idx <= n,
                n == self.instruments@.len(),
                profile_instrument_index(self.instruments@, id@) == profile_instrument_index_from(
                    self.instruments@,
                    id@,
                    idx as int,
                ),
            decreases n - idx,
        {
            if self.instruments[idx].id == *id {
                return Some(idx);
            }
            idx += 1;
        }
        None
    }
}

impl TradingProfileInstrument {
    /// Whether `leverage` is one of this policy's allowed multipliers.
    pub fn allows_leverage(&self, leverage: i32) -> (r: bool)
        ensures
            r == leverage_allowed(self.leverages@, leverage),
    {
        let n = self.leverages.len();
        let mut idx: usize = 0;
        while idx < n
            invariant
                idx <= n,
                n == self.leverages@.len(),
                forall|j: int| 0 <= j < idx ==> self.leverages@[j] != leverage,
            decreases n - idx,
        {
            if self.leverages[idx] == leverage {
                return true;
            }
            idx += 1;
        }
        false
    }
}

} // verus!
