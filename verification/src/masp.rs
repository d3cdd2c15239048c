//! Domain values shared by the crawler and its read-side consumers.

use vstd::prelude::*;
use vstd::string::*;

verus! {

/// A chain epoch: the discrete bucket over which reward parameters are computed.
pub type Epoch = u32;

/// A non-empty run of ASCII decimal digits.
pub open spec fn is_digit_string(s: Seq<char>) -> bool {
    s.len() > 0 && forall|i: int| 0 <= i < s.len() ==> '0' <= #[trigger] s[i] <= '9'
}

/// Decides whether `text` is a non-empty run of ASCII decimal digits.
pub fn check_digit_string(text: &str) -> (ok: bool)
    ensures
        ok == is_digit_string(text@),
{
    let n: usize = text.unicode_len();
    if n == 0 {
        return false;
    }
    let mut i: usize = 0;
    while i < n
        invariant
            n == text@.len(),
            i <= n,
            forall|j: int| 0 <= j < i ==> '0' <= #[trigger] text@[j] <= '9',
        decreases n - i,
    {
        let c = text.get_char(i);
        if !('0' <= c && c <= '9') {
            return false;
        }
        i += 1;
    }
    true
}

/// An identifier on the chain: a transaction hash or an account address.
#[derive(Debug)]
pub enum Id {
    Hash(String),
    Account(String),
}

/// The mathematical value of an [`Id`].
pub enum IdView {
    Hash(Seq<char>),
    Account(Seq<char>),
}

impl IdView {
    /// The characters of the identifier, whichever kind it is.
    pub open spec fn text(self) -> Seq<char> {
        match self {
            IdView::Hash(s) => s,
            IdView::Account(s) => s,
        }
    }
}

impl DeepView for Id {
    type V = IdView;

    open spec fn deep_view(&self) -> IdView {
        match self {
            Id::Hash(s) => IdView::Hash(s@),
            Id::Account(s) => IdView::Account(s@),
        }
    }
}

impl Id {
    /// The identifier as text.
    pub fn to_string(&self) -> (text: String)
        ensures
            text@ == self.deep_view().text(),
    {
        match self {
            Id::Hash(s) => s.clone(),
            Id::Account(s) => s.clone(),
        }
    }
}

impl Clone for Id {
    fn clone(&self) -> (copy: Self)
        ensures
            copy == *self,
    {
        match self {
            Id::Hash(s) => Id::Hash(s.clone()),
            Id::Account(s) => Id::Account(s.clone()),
        }
    }
}

/// An arbitrary-precision unsigned integer amount, held as its decimal digits.
#[derive(Debug)]
pub struct Amount {
    digits: String,
}

impl View for Amount {
    type V = Seq<char>;

    closed spec fn view(&self) -> Seq<char> {
        self.digits@
    }
}

impl DeepView for Amount {
    type V = Seq<char>;

    open spec fn deep_view(&self) -> Seq<char> {
        self@
    }
}

impl Amount {
    #[verifier::type_invariant]
    spec fn holds_digits(&self) -> bool {
        is_digit_string(self.digits@)
    }

    /// Reads an amount from its decimal digits; anything else is refused.
    pub fn parse(text: &str) -> (parsed: Option<Amount>)
        ensures
            parsed is Some <==> is_digit_string(text@),
            parsed matches Some(a) ==> a@ == text@,
    {
        if check_digit_string(text) {
            Some(Amount { digits: text.to_owned() })
        } else {
            None
        }
    }

    /// The decimal digits of the amount.
    pub fn to_string(&self) -> (text: String)
        ensures
            text@ == self@,
            is_digit_string(text@),
    {
        proof {
            use_type_invariant(self);
        }
        self.digits.clone()
    }
}

impl Clone for Amount {
    fn clone(&self) -> (copy: Self)
        ensures
            copy == *self,
    {
        proof {
            use_type_invariant(self);
        }
        Amount { digits: self.digits.clone() }
    }
}

/// Whether a shielded-pool entry moves value into the pool or out of it.
#[derive(Debug, Clone, Copy, PartialEq, Eq, Structural)]
pub enum MaspEntryDirection {
    In,
    Out,
}

/// One movement of a token into or out of the shielded pool.
#[derive(Debug)]
pub struct MaspEntry {
    pub token_address: String,
    pub timestamp: i64,
    pub raw_amount: Amount,
    pub direction: MaspEntryDirection,
    pub inner_tx_id: Id,
}

impl Clone for MaspEntry {
    fn clone(&self) -> (copy: Self)
        ensures
            copy == *self,
    {
        MaspEntry {
            token_address: self.token_address.clone(),
            timestamp: self.timestamp,
            raw_amount: self.raw_amount.clone(),
            direction: self.direction,
            inner_tx_id: self.inner_tx_id.clone(),
        }
    }
}

/// The reward coefficients of one token as of one epoch.
#[derive(Debug)]
pub struct MaspRewardData {
    pub address: Id,
    pub max_reward_rate: String,
    pub kp_gain: String,
    pub kd_gain: String,
    pub locked_amount_target: Amount,
}

/// The mathematical value of a [`MaspRewardData`].
pub struct MaspRewardDataView {
    pub address: IdView,
    pub max_reward_rate: Seq<char>,
    pub kp_gain: Seq<char>,
    pub kd_gain: Seq<char>,
    pub locked_amount_target: Seq<char>,
}

impl DeepView for MaspRewardData {
    type V = MaspRewardDataView;

    open spec fn deep_view(&self) -> MaspRewardDataView {
        MaspRewardDataView {
            address: self.address.deep_view(),
            max_reward_rate: self.max_reward_rate@,
            kp_gain: self.kp_gain@,
            kd_gain: self.kd_gain@,
            locked_amount_target: self.locked_amount_target@,
        }
    }
}

impl Clone for MaspRewardData {
    fn clone(&self) -> (copy: Self)
        ensures
            copy == *self,
    {
        MaspRewardData {
            address: self.address.clone(),
            max_reward_rate: self.max_reward_rate.clone(),
            kp_gain: self.kp_gain.clone(),
            kd_gain: self.kd_gain.clone(),
            locked_amount_target: self.locked_amount_target.clone(),
        }
    }
}

} // verus!
