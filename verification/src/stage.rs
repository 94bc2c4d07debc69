//! Coarse progress signals of an experiment and their one-line labels.

use vstd::prelude::*;

use crate::decimal::{decimal_digits, is_numeral_of, lemma_decimal_digits_is_numeral, push_decimal};

verus! {

/// Coarse progress signal emitted while a job is running.
#[derive(Debug, Clone)]
pub enum Stage {
    Hmc { chain: usize, total_chains: usize, done: usize, total: usize },
    Mh { chain: usize, total_chains: usize, done: usize, total: usize },
    MomentumScanHmc,
    MomentumScanMh,
    Histogram,
    Done,
}

/// What a background worker reports about the job it runs.
#[derive(Debug, Clone)]
pub enum Progress {
    Started,
    Stage(Stage),
}

/// `"<prefix><chain + 1>/<total_chains>: <done>/<total>"`, the label of a
/// chain that is being sampled (chains are shown counted from one).
pub open spec fn chain_progress_text(
    prefix: Seq<char>,
    chain: nat,
    total_chains: nat,
    done: nat,
    total: nat,
) -> Seq<char> {
    prefix + decimal_digits((chain + 1) as nat) + "/"@ + decimal_digits(total_chains) + ": "@
        + decimal_digits(done) + "/"@ + decimal_digits(total)
}

/// The status-bar text of each stage.
pub open spec fn stage_text(stage: Stage) -> Seq<char> {
    match stage {
        Stage::Hmc { chain, total_chains, done, total } => chain_progress_text(
            "HMC chain "@,
            chain as nat,
            total_chains as nat,
            done as nat,
            total as nat,
        ),
        Stage::Mh { chain, total_chains, done, total } => chain_progress_text(
            "MH chain "@,
            chain as nat,
            total_chains as nat,
            done as nat,
            total as nat,
        ),
        Stage::MomentumScanHmc => "scanning masses (HMC)"@,
        Stage::MomentumScanMh => "scanning masses (MH)"@,
        Stage::Histogram => "building histograms"@,
        Stage::Done => "rendering"@,
    }
}

/// The label of a sampling stage reads `"<prefix><c>/<n>: <d>/<t>"`, where
/// `<c>` is the decimal numeral of the one-based chain number `chain + 1`,
/// `<n>` that of the number of chains, `<d>` that of the completed
/// iterations and `<t>` that of the iterations of the chain; the prefix is
/// `"HMC chain "` or `"MH chain "`, and both kinds share everything after it.
pub proof fn lemma_chain_label_fields(chain: usize, total_chains: usize, done: usize, total: usize)
    ensures
        stage_text(Stage::Hmc { chain, total_chains, done, total }) == "HMC chain "@
            + decimal_digits((chain + 1) as nat) + "/"@ + decimal_digits(total_chains as nat) + ": "@
            + decimal_digits(done as nat) + "/"@ + decimal_digits(total as nat),
        stage_text(Stage::Mh { chain, total_chains, done, total }) == "MH chain "@
            + decimal_digits((chain + 1) as nat) + "/"@ + decimal_digits(total_chains as nat) + ": "@
            + decimal_digits(done as nat) + "/"@ + decimal_digits(total as nat),
        is_numeral_of(decimal_digits((chain + 1) as nat), (chain + 1) as nat),
        is_numeral_of(decimal_digits(total_chains as nat), total_chains as nat),
        is_numeral_of(decimal_digits(done as nat), done as nat),
        is_numeral_of(decimal_digits(total as nat), total as nat),
{
    lemma_decimal_digits_is_numeral((chain + 1) as nat);
    lemma_decimal_digits_is_numeral(total_chains as nat);
    lemma_decimal_digits_is_numeral(done as nat);
    lemma_decimal_digits_is_numeral(total as nat);
}

/// The stages after sampling have fixed labels.
pub proof fn lemma_fixed_stage_labels()
    ensures
        stage_text(Stage::MomentumScanHmc) == "scanning masses (HMC)"@,
        stage_text(Stage::MomentumScanMh) == "scanning masses (MH)"@,
        stage_text(Stage::Histogram) == "building histograms"@,
        stage_text(Stage::Done) == "rendering"@,
{
}

/// A stage whose label can be written: the one-based chain number of a
/// sampling stage fits in a `usize`.
pub open spec fn stage_label_defined(stage: Stage) -> bool {
    match stage {
        Stage::Hmc { chain, .. } => chain < usize::MAX,
        Stage::Mh { chain, .. } => chain < usize::MAX,
        _ => true,
    }
}

fn push_chain_progress(
    out: &mut String,
    chain: usize,
    total_chains: usize,
    done: usize,
    total: usize,
)
    requires
        chain < usize::MAX,
    ensures
        final(out)@ == chain_progress_text(
            old(out)@,
            chain as nat,
            total_chains as nat,
            done as nat,
            total as nat,
        ),
{
    push_decimal(out, chain + 1);
    out.append("/");
    push_decimal(out, total_chains);
    out.append(": ");
    push_decimal(out, done);
    out.append("/");
    push_decimal(out, total);
}

/// The status-bar label of a stage, such as `"HMC chain 1/4: 250/1000"`.
pub fn stage_label(stage: &Stage) -> (label: String)
    requires
        stage_label_defined(*stage),
    ensures
        label@ == stage_text(*stage),
        stage matches Stage::Hmc { chain, total_chains, done, total } ==> label@ == "HMC chain "@
            + decimal_digits((chain + 1) as nat) + "/"@ + decimal_digits(total_chains as nat) + ": "@
            + decimal_digits(done as nat) + "/"@ + decimal_digits(total as nat),
        stage matches Stage::Mh { chain, total_chains, done, total } ==> label@ == "MH chain "@
            + decimal_digits((chain + 1) as nat) + "/"@ + decimal_digits(total_chains as nat) + ": "@
            + decimal_digits(done as nat) + "/"@ + decimal_digits(total as nat),
        *stage is MomentumScanHmc ==> label@ == "scanning masses (HMC)"@,
        *stage is MomentumScanMh ==> label@ == "scanning masses (MH)"@,
        *stage is Histogram ==> label@ == "building histograms"@,
        *stage is Done ==> label@ == "rendering"@,
{
    proof {
        match *stage {
            Stage::Hmc { chain, total_chains, done, total } => {
                lemma_chain_label_fields(chain, total_chains, done, total);
            },
            Stage::Mh { chain, total_chains, done, total } => {
                lemma_chain_label_fields(chain, total_chains, done, total);
            },
            _ => {},
        }
    }
    match stage {
        Stage::Hmc { chain, total_chains, done, total } => {
            let mut out = String::from_str("HMC chain ");
            push_chain_progress(&mut out, *chain, *total_chains, *done, *total);
            out
        },
        Stage::Mh { chain, total_chains, done, total } => {
            let mut out = String::from_str("MH chain ");
            push_chain_progress(&mut out, *chain, *total_chains, *done, *total);
            out
        },
        Stage::MomentumScanHmc => String::from_str("scanning masses (HMC)"),
        Stage::MomentumScanMh => String::from_str("scanning masses (MH)"),
        Stage::Histogram => String::from_str("building histograms"),
        Stage::Done => String::from_str("rendering"),
    }
}

} // verus!
