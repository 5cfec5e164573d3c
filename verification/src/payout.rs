//! Payout rates by asset.

use vstd::prelude::*;
use vstd::string::*;

verus! {

/// The text of the error for an asset that the table does not list.
pub const ASSET_NOT_FOUND: &'static str = "Asset not found";

/// Which payout rates a caller asks for.
#[derive(Debug, Clone, PartialEq, Eq)]
pub enum AssetQuery {
    /// The rate of one asset.
    One(String),
    /// The rates of several assets, in this order.
    Many(Vec<String>),
}

/// The answer to a payout query.
#[derive(Debug, Clone, PartialEq, Eq)]
pub enum Payout {
    /// Every asset with its rate.
    Table(Vec<(String, i32)>),
    /// The rate of the one asset asked for.
    Rate(i32),
    /// The rates of the assets asked for, in the order of the query.
    Rates(Vec<i32>),
}

/// The rate that `entries` lists for `asset`, from its first entry of
/// that name.
pub open spec fn rate_of(entries: Seq<(String, i32)>, asset: Seq<char>) -> Option<i32>
    decreases entries.len(),
{
    if entries.len() == 0 {
        None
    } else if entries[0].0@ == asset {
        Some(entries[0].1)
    } else {
        rate_of(entries.drop_first(), asset)
    }
}

/// The rate that `entries` lists for `asset`, zero where it lists none.
pub open spec fn rate_or_zero(entries: Seq<(String, i32)>, asset: Seq<char>) -> i32 {
    match rate_of(entries, asset) {
        Some(rate) => rate,
        None => 0,
    }
}

/// Payout rates by asset name.
#[derive(Debug, Clone, PartialEq, Eq)]
pub struct PayoutTable {
    entries: Vec<(String, i32)>,
}

impl View for PayoutTable {
    type V = Seq<(String, i32)>;

    closed spec fn view(&self) -> Seq<(String, i32)> {
        self.entries@
    }
}

impl PayoutTable {
    /// The table with the given entries.
    pub fn new(entries: Vec<(String, i32)>) -> (table: Self)
        ensures
            table@ == entries@,
    {
        PayoutTable { entries }
    }

    /// The rate of `asset`, if the table lists it.
    pub fn get(&self, asset: &String) -> (rate: Option<i32>)
        ensures
            rate == rate_of(self@, asset@),
    {
        let mut at: usize = 0;
        assert(self.entries@.skip(0) =~= self.entries@);
        while at < self.entries.len()
            invariant
                at <= self.entries@.len(),
                rate_of(self.entries@, asset@) == rate_of(self.entries@.skip(at as int), asset@),
            decreases self.entries@.len() - at,
        {
            proof {
                let rest = self.entries@.skip(at as int);
                assert(rest[0] == self.entries@[at as int]);
                assert(rest.drop_first() =~= self.entries@.skip(at + 1));
            }
            if self.entries[at].0 == *asset {
                return Some(self.entries[at].1);
            }
            at += 1;
        }
        None
    }

    /// Answers a payout query. Without a query the whole table comes
    /// back. A query for one asset gives its rate and fails where the
    /// table does not list the asset. A query for several assets gives
    /// their rates in order, zero for each asset that is not listed.
    pub fn payout(&self, asset: Option<AssetQuery>) -> (answer: Result<Payout, String>)
        ensures
            match asset {
                None => answer matches Ok(Payout::Table(entries)) && entries@ == self@,
                Some(AssetQuery::One(single)) => match rate_of(self@, single@) {
                    Some(rate) => answer == Ok::<Payout, String>(Payout::Rate(rate)),
                    None => answer matches Err(text) && text@ == ASSET_NOT_FOUND@,
                },
                Some(AssetQuery::Many(multiple)) => answer matches Ok(Payout::Rates(rates))
                    && rates@.len() == multiple@.len() && forall|i: int|
                    0 <= i < rates@.len() ==> rates@[i] == rate_or_zero(self@, multiple@[i]@),
            },
    {
        match asset {
            None => Ok(Payout::Table(self.copy_entries())),
            Some(AssetQuery::One(single)) => match self.get(&single) {
                Some(rate) => Ok(Payout::Rate(rate)),
                None => Err(String::from_str(ASSET_NOT_FOUND)),
            },
            Some(AssetQuery::Many(multiple)) => {
                let mut rates: Vec<i32> = Vec::new();
                let mut at: usize = 0;
                while at < multiple.len()
                    invariant
                        at <= multiple@.len(),
                        rates@.len() == at,
                        forall|i: int|
                            0 <= i < at ==> rates@[i] == rate_or_zero(self@, multiple@[i]@),
                    decreases multiple@.len() - at,
                {
                    let rate = match self.get(&multiple[at]) {
                        Some(rate) => rate,
                        None => 0,
                    };
                    rates.push(rate);
                    at += 1;
                }
                Ok(Payout::Rates(rates))
            },
        }
    }

    fn copy_entries(&self) -> (copy: Vec<(String, i32)>)
        ensures
            copy@ == self@,
    {
        let mut copy: Vec<(String, i32)> = Vec::new();
        let mut at: usize = 0;
        while at < self.entries.len()
            invariant
                at <= self.entries@.len(),
                copy@ == self.entries@.take(at as int),
            decreases self.entries@.len() - at,
        {
            copy.push((self.entries[at].0.clone(), self.entries[at].1));
            assert(copy@ =~= self.entries@.take(at + 1));
            at += 1;
        }
        assert(self.entries@.take(at as int) =~= self.entries@);
        copy
    }
}

} // verus!
