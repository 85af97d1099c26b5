//! The status model: what is reported of each node, and the shapes in which
//! the consensus node and the execution node answer.

use crate::numeral::{decimal_of, digit_char, push_decimal};
use vstd::prelude::*;
use vstd::string::*;

verus! {

/// The text of a share given in hundredths: the whole percents, a point, and
/// two decimals.
pub open spec fn hundredths_text(hundredths: nat) -> Seq<char> {
    decimal_of(hundredths / 100) + seq!['.'] + seq![
        digit_char(hundredths % 100 / 10),
        digit_char(hundredths % 10),
    ]
}

/// A share in percent, held exactly as a fraction: the denominator is
/// positive, and the numerator is a hundred times a 64-bit count at most.
#[derive(Clone, Copy, Debug, PartialEq, Eq, Structural)]
pub struct Percent {
    numerator: u128,
    denominator: u64,
}

impl Percent {
    #[verifier::type_invariant]
    spec fn well_formed(self) -> bool {
        self.denominator > 0 && self.numerator <= 100 * u64::MAX
    }

    /// The numerator of the fraction.
    pub closed spec fn numerator(self) -> nat {
        self.numerator as nat
    }

    /// The denominator of the fraction.
    pub closed spec fn denominator(self) -> nat {
        self.denominator as nat
    }

    /// `part / whole * 100`, and zero where `whole` is zero.
    pub closed spec fn ratio(part: u64, whole: u64) -> Percent {
        if whole == 0 {
            Percent { numerator: 0, denominator: 1 }
        } else {
            Percent { numerator: (100 * part) as u128, denominator: whole }
        }
    }

    /// Whether the share is exactly zero.
    pub open spec fn is_zero(self) -> bool {
        self.numerator() == 0
    }

    /// Whether the share is no more than `bound` percent.
    pub open spec fn at_most(self, bound: nat) -> bool {
        self.numerator() <= bound * self.denominator()
    }

    /// The share in hundredths of a percent, rounded to the nearest, a half
    /// upwards.
    pub open spec fn rounded_hundredths(self) -> nat {
        (200 * self.numerator() + self.denominator()) / (2 * self.denominator())
    }

    /// The share that `part` is of `whole`.
    pub fn of(part: u64, whole: u64) -> (r: Percent)
        ensures
            r == Self::ratio(part, whole),
            r.numerator() == (if whole == 0 { 0 } else { 100 * part }),
            r.denominator() == (if whole == 0 { 1 } else { whole as int }),
    {
        if whole == 0 {
            Percent { numerator: 0, denominator: 1 }
        } else {
            Percent { numerator: 100 * (part as u128), denominator: whole }
        }
    }

    /// The share in hundredths of a percent, rounded to the nearest: the
    /// one count of hundredths that is within half a hundredth of the share,
    /// the upper one of two.
    pub fn hundredths(&self) -> (r: u128)
        ensures
            r == self.rounded_hundredths(),
            2 * r * self.denominator() <= 200 * self.numerator() + self.denominator() < 2 * (r
                + 1) * self.denominator(),
    {
        proof {
            use_type_invariant(self);
        }
        let scaled: u128 = 200 * self.numerator + self.denominator as u128;
        let r: u128 = scaled / (2 * self.denominator as u128);
        proof {
            let d = 2 * self.denominator as int;
            assert(d * r <= scaled < d * (r + 1)) by (nonlinear_arith)
                requires
                    d > 0,
                    r == scaled as int / d,
            ;
            assert(2 * r * self.denominator() == d * r && 2 * (r + 1) * self.denominator() == d * (
            r + 1)) by (nonlinear_arith)
                requires
                    d == 2 * self.denominator(),
            ;
        }
        r
    }

    /// The text of this share, as [`Percent::describe`] writes it.
    pub open spec fn described(self) -> Seq<char> {
        hundredths_text(self.rounded_hundredths())
    }

    /// Writes the share with two decimals, as in `25.00`.
    pub fn describe(&self) -> (r: String)
        ensures
            r@ == self.described(),
    {
        let h: u128 = self.hundredths();
        let mut text = String::new();
        push_decimal(&mut text, h / 100);
        text.append(".");
        push_decimal(&mut text, h % 100 / 10);
        push_decimal(&mut text, h % 10);
        proof {
            reveal_strlit(".");
            assert("."@ =~= seq!['.']);
            assert(decimal_of((h % 100 / 10) as nat) =~= seq![digit_char((h % 100 / 10) as nat)]);
            assert(decimal_of((h % 10) as nat) =~= seq![digit_char((h % 10) as nat)]);
            assert(text@ =~= self.described());
        }
        text
    }
}

/// How far the execution node is with its sync.
#[derive(Clone, Copy, Debug, PartialEq, Eq, Structural)]
pub enum ElSyncState {
    FullySynced,
    Syncing { starting_block: u64, current_block: u64, highest_block: u64, percent: Percent },
}

impl ElSyncState {
    /// The state of a node that reports these three blocks: `percent` is
    /// `current_block / highest_block * 100`, and zero while `highest_block`
    /// is zero.
    pub open spec fn progress(starting_block: u64, current_block: u64, highest_block: u64) -> Self {
        ElSyncState::Syncing {
            starting_block,
            current_block,
            highest_block,
            percent: Percent::ratio(current_block, highest_block),
        }
    }

    /// The state of a node that reports these three blocks.
    pub fn syncing(starting_block: u64, current_block: u64, highest_block: u64) -> (r: Self)
        ensures
            r == Self::progress(starting_block, current_block, highest_block),
    {
        ElSyncState::Syncing {
            starting_block,
            current_block,
            highest_block,
            percent: Percent::of(current_block, highest_block),
        }
    }

    /// The line that [`ElSyncState::describe`] writes.
    pub open spec fn described(self) -> Seq<char> {
        match self {
            ElSyncState::FullySynced => "Fully synced"@,
            ElSyncState::Syncing { starting_block, current_block, highest_block, percent } => {
                if highest_block == 0 {
                    "execution not started yet"@
                } else {
                    decimal_of(starting_block as nat) + " \u{2192} "@ + decimal_of(
                        current_block as nat,
                    ) + " / "@ + decimal_of(highest_block as nat) + " ("@ + percent.described()
                        + "%)"@
                }
            },
        }
    }

    /// Writes the state for the operator: `Fully synced`, or that the sync
    /// has not started while the highest block is zero, or the three blocks
    /// and the share done.
    pub fn describe(&self) -> (r: String)
        ensures
            r@ == self.described(),
    {
        match self {
            ElSyncState::FullySynced => String::from_str("Fully synced"),
            ElSyncState::Syncing { starting_block, current_block, highest_block, percent } => {
                if *highest_block == 0 {
                    String::from_str("execution not started yet")
                } else {
                    let mut text = String::new();
                    push_decimal(&mut text, *starting_block as u128);
                    text.append(" \u{2192} ");
                    push_decimal(&mut text, *current_block as u128);
                    text.append(" / ");
                    push_decimal(&mut text, *highest_block as u128);
                    text.append(" (");
                    let share = percent.describe();
                    text.append(share.as_str());
                    text.append("%)");
                    assert(text@ =~= self.described());
                    text
                }
            },
        }
    }
}

/// What the execution node reports of itself.
#[derive(Clone, Debug, PartialEq, Eq)]
pub struct ExecutionStatus {
    pub version: String,
    pub chain_id: u64,
    pub head_block: u64,
    pub sync: ElSyncState,
}

/// An [`ExecutionStatus`] with its text as a sequence of characters.
pub struct ExecutionStatusView {
    pub version: Seq<char>,
    pub chain_id: u64,
    pub head_block: u64,
    pub sync: ElSyncState,
}

impl DeepView for ExecutionStatus {
    type V = ExecutionStatusView;

    open spec fn deep_view(&self) -> ExecutionStatusView {
        ExecutionStatusView {
            version: self.version@,
            chain_id: self.chain_id,
            head_block: self.head_block,
            sync: self.sync,
        }
    }
}

/// The health of the consensus node, as its health probe answers.
#[derive(Clone, Copy, Debug, PartialEq, Eq, Structural)]
pub enum ClHealth {
    Healthy,
    Syncing,
    Unhealthy,
    Unknown(u16),
}

impl ClHealth {
    /// The health that an HTTP status code stands for: 200 is healthy, 206
    /// syncing, 503 unhealthy, and every other code is kept as unknown.
    pub open spec fn of_code(code: u16) -> ClHealth {
        if code == 200 {
            ClHealth::Healthy
        } else if code == 206 {
            ClHealth::Syncing
        } else if code == 503 {
            ClHealth::Unhealthy
        } else {
            ClHealth::Unknown(code)
        }
    }

    /// Classifies the status code of a health probe.
    pub fn from_code(code: u16) -> (r: ClHealth)
        ensures
            r == Self::of_code(code),
    {
        match code {
            200 => ClHealth::Healthy,
            206 => ClHealth::Syncing,
            503 => ClHealth::Unhealthy,
            other => ClHealth::Unknown(other),
        }
    }

    /// The word that [`ClHealth::describe`] writes.
    pub open spec fn described(self) -> Seq<char> {
        match self {
            ClHealth::Healthy => "healthy"@,
            ClHealth::Syncing => "syncing"@,
            ClHealth::Unhealthy => "unhealthy"@,
            ClHealth::Unknown(code) => "unknown ("@ + decimal_of(code as nat) + ")"@,
        }
    }

    /// Writes the health for the operator.
    pub fn describe(&self) -> (r: String)
        ensures
            r@ == self.described(),
    {
        match self {
            ClHealth::Healthy => String::from_str("healthy"),
            ClHealth::Syncing => String::from_str("syncing"),
            ClHealth::Unhealthy => String::from_str("unhealthy"),
            ClHealth::Unknown(code) => {
                let mut text = String::from_str("unknown (");
                push_decimal(&mut text, *code as u128);
                text.append(")");
                text
            },
        }
    }
}

/// What the consensus node reports of itself. An absent finalized epoch is
/// not the epoch zero.
#[derive(Clone, Debug, PartialEq, Eq)]
pub struct ConsensusStatus {
    pub version: String,
    pub head_slot: u64,
    pub finalized_epoch: Option<u64>,
    pub is_syncing: bool,
    pub health: ClHealth,
}

/// A [`ConsensusStatus`] with its text as a sequence of characters.
pub struct ConsensusStatusView {
    pub version: Seq<char>,
    pub head_slot: u64,
    pub finalized_epoch: Option<u64>,
    pub is_syncing: bool,
    pub health: ClHealth,
}

impl DeepView for ConsensusStatus {
    type V = ConsensusStatusView;

    open spec fn deep_view(&self) -> ConsensusStatusView {
        ConsensusStatusView {
            version: self.version@,
            head_slot: self.head_slot,
            finalized_epoch: self.finalized_epoch,
            is_syncing: self.is_syncing,
            health: self.health,
        }
    }
}

/// The answer of the execution node to `eth_syncing`: a boolean while it is
/// not syncing, or the three blocks of a sync as hex quantities.
#[derive(Clone, Debug, PartialEq, Eq)]
pub enum ElSyncing {
    NotSyncing(bool),
    Syncing { starting_block: String, current_block: String, highest_block: String },
}

/// An [`ElSyncing`] with its text as sequences of characters.
pub enum ElSyncingView {
    NotSyncing(bool),
    Syncing { starting_block: Seq<char>, current_block: Seq<char>, highest_block: Seq<char> },
}

impl DeepView for ElSyncing {
    type V = ElSyncingView;

    open spec fn deep_view(&self) -> ElSyncingView {
        match self {
            ElSyncing::NotSyncing(flag) => ElSyncingView::NotSyncing(*flag),
            ElSyncing::Syncing { starting_block, current_block, highest_block } => {
                ElSyncingView::Syncing {
                    starting_block: starting_block@,
                    current_block: current_block@,
                    highest_block: highest_block@,
                }
            },
        }
    }
}

/// The envelope of every answer of the consensus node: the payload stands
/// under `data`.
#[derive(Clone, Debug, PartialEq, Eq)]
pub struct ClApi<T> {
    pub data: T,
}

impl<T: DeepView> DeepView for ClApi<T> {
    type V = ClApi<T::V>;

    open spec fn deep_view(&self) -> ClApi<T::V> {
        ClApi { data: self.data.deep_view() }
    }
}

/// The payload of the consensus node's version answer.
#[derive(Clone, Debug, PartialEq, Eq)]
pub struct ClVersion {
    pub version: String,
}

/// A [`ClVersion`] with its text as a sequence of characters.
pub struct ClVersionView {
    pub version: Seq<char>,
}

impl DeepView for ClVersion {
    type V = ClVersionView;

    open spec fn deep_view(&self) -> ClVersionView {
        ClVersionView { version: self.version@ }
    }
}

/// The payload of the consensus node's syncing answer, numbers still in
/// decimal text.
#[derive(Clone, Debug, PartialEq, Eq)]
pub struct ClSync {
    pub head_slot: String,
    pub is_syncing: bool,
    pub finalized_epoch: Option<String>,
}

/// A [`ClSync`] with its text as sequences of characters.
pub struct ClSyncView {
    pub head_slot: Seq<char>,
    pub is_syncing: bool,
    pub finalized_epoch: Option<Seq<char>>,
}

impl DeepView for ClSync {
    type V = ClSyncView;

    open spec fn deep_view(&self) -> ClSyncView {
        ClSyncView {
            head_slot: self.head_slot@,
            is_syncing: self.is_syncing,
            finalized_epoch: match self.finalized_epoch {
                Some(epoch) => Some(epoch@),
                None => None,
            },
        }
    }
}

/// The payload of the consensus node's peer count answer.
#[derive(Clone, Copy, Debug, PartialEq, Eq, Structural)]
pub struct ClPeers {
    pub connected: u64,
}

/// While the highest block is zero, the share done is zero, whatever the
/// other two blocks are, and the state is reported as not started.
pub proof fn lemma_not_started(starting_block: u64, current_block: u64)
    ensures
        Percent::ratio(current_block, 0).is_zero(),
        Percent::ratio(current_block, 0).rounded_hundredths() == 0,
        ElSyncState::progress(starting_block, current_block, 0).described()
            == "execution not started yet"@,
{
}

/// Once the highest block is known, the share done is exactly
/// `current_block / highest_block * 100`; it is no more than a hundred if
/// and only if the current block is not past the highest.
pub proof fn lemma_percent_is_exact(current_block: u64, highest_block: u64)
    requires
        highest_block > 0,
    ensures
        Percent::ratio(current_block, highest_block).numerator() * highest_block == 100
            * current_block * Percent::ratio(current_block, highest_block).denominator(),
        Percent::ratio(current_block, highest_block).at_most(100) <==> current_block
            <= highest_block,
{
    let p = Percent::ratio(current_block, highest_block);
    assert(p.numerator() * highest_block == 100 * current_block * p.denominator())
        by (nonlinear_arith)
        requires
            p.numerator() == 100 * current_block,
            p.denominator() == highest_block,
    ;
}

} // verus!
