//! The six scans that an oracle keeps, and the document of their
//! identifiers.

use vstd::prelude::*;
use crate::document::{members, is_text_record, new_record, pretty_text, print_pretty, set_text, with_member};
use crate::predicate::{
    Predicate, asset_and_script, asset_script_and_register, script_only,
    lemma_asset_and_script_checks_asset, lemma_asset_script_and_register_checks_asset,
};
use crate::scan::{Registration, Scan, ScanError, is_null_id, null_id};

verus! {

/// The scan for the pool box: it holds the pool's token and is guarded by
/// the pool contract.
pub fn register_pool_box_scan(oracle_pool_nft: &String, pool_tree_bytes: &String) -> (pending:
    Registration)
    ensures
        pending@.name == "Pool Box Scan"@,
        pending@.rule == asset_and_script(oracle_pool_nft@, pool_tree_bytes@),
        pending@.rule.checks_asset(),
{
    proof {
        lemma_asset_and_script_checks_asset(oracle_pool_nft@, pool_tree_bytes@);
    }
    Scan::register("Pool Box Scan", Predicate::asset_and_script(oracle_pool_nft, pool_tree_bytes))
}

/// The scan for the refresh box, under a name of the caller's: it holds the
/// refresh token and is guarded by the refresh contract.
pub fn register_refresh_box_scan(
    scan_name: &'static str,
    refresh_nft: &String,
    refresh_tree_bytes: &String,
) -> (pending: Registration)
    ensures
        pending@.name == scan_name@,
        pending@.rule == asset_and_script(refresh_nft@, refresh_tree_bytes@),
        pending@.rule.checks_asset(),
{
    proof {
        lemma_asset_and_script_checks_asset(refresh_nft@, refresh_tree_bytes@);
    }
    Scan::register(scan_name, Predicate::asset_and_script(refresh_nft, refresh_tree_bytes))
}

/// The scan for the box of the epoch preparation stage: it holds the pool's
/// token and lies at the epoch preparation address.
pub fn register_epoch_preparation_scan(
    oracle_pool_nft: &String,
    epoch_preparation_bytes: &String,
) -> (pending: Registration)
    ensures
        pending@.name == "Epoch Preparation Scan"@,
        pending@.rule == asset_and_script(oracle_pool_nft@, epoch_preparation_bytes@),
        pending@.rule.checks_asset(),
{
    proof {
        lemma_asset_and_script_checks_asset(oracle_pool_nft@, epoch_preparation_bytes@);
    }
    Scan::register(
        "Epoch Preparation Scan",
        Predicate::asset_and_script(oracle_pool_nft, epoch_preparation_bytes),
    )
}

/// The scan for the oracle's own datapoint box: it holds the participant
/// token, lies at the datapoint address and names the oracle in R4.
pub fn register_local_oracle_datapoint_scan(
    oracle_pool_participant_token: &String,
    datapoint_bytes: &String,
    oracle_raw_bytes: &String,
) -> (pending: Registration)
    ensures
        pending@.name == "Local Oracle Datapoint Scan"@,
        pending@.rule == asset_script_and_register(
            oracle_pool_participant_token@,
            datapoint_bytes@,
            "R4"@,
            oracle_raw_bytes@,
        ),
        pending@.rule.checks_asset(),
{
    proof {
        lemma_asset_script_and_register_checks_asset(
            oracle_pool_participant_token@,
            datapoint_bytes@,
            "R4"@,
            oracle_raw_bytes@,
        );
    }
    Scan::register(
        "Local Oracle Datapoint Scan",
        Predicate::asset_script_and_register(
            oracle_pool_participant_token,
            datapoint_bytes,
            "R4",
            oracle_raw_bytes,
        ),
    )
}

/// The scan for the datapoint boxes of all oracles: each holds the
/// participant token and lies at the datapoint address.
pub fn register_datapoint_scan(
    oracle_pool_participant_token: &String,
    datapoint_bytes: &String,
) -> (pending: Registration)
    ensures
        pending@.name == "All Datapoints Scan"@,
        pending@.rule == asset_and_script(oracle_pool_participant_token@, datapoint_bytes@),
        pending@.rule.checks_asset(),
{
    proof {
        lemma_asset_and_script_checks_asset(oracle_pool_participant_token@, datapoint_bytes@);
    }
    Scan::register(
        "All Datapoints Scan",
        Predicate::asset_and_script(oracle_pool_participant_token, datapoint_bytes),
    )
}

/// The scan for the boxes at the pool deposit address, whatever they hold:
/// alone among the six it asks for no asset.
pub fn register_pool_deposit_scan(pool_deposit_bytes: &String) -> (pending: Registration)
    ensures
        pending@.name == "Pool Deposits Scan"@,
        pending@.rule == script_only(pool_deposit_bytes@),
        !pending@.rule.checks_asset(),
{
    Scan::register("Pool Deposits Scan", Predicate::script_only(pool_deposit_bytes))
}

/// Whether one of the scans carries the null identifier.
pub open spec fn has_null_id(scans: Seq<Scan>) -> bool {
    exists|i: int| 0 <= i < scans.len() && (#[trigger] scans[i])@.id == null_id()
}

/// The members of the document of identifiers: each scan's identifier
/// under its name, set in the order of the scans.
pub open spec fn id_members(scans: Seq<Scan>) -> Seq<(Seq<char>, Seq<char>)>
    decreases scans.len(),
{
    if scans.len() == 0 {
        Seq::empty()
    } else {
        with_member(id_members(scans.drop_last()), scans.last()@.name, scans.last()@.id)
    }
}

/// The document that records each scan's identifier under its name, printed
/// with four spaces to a level, for the caller to write in place of any
/// earlier one. Where a scan carries the null identifier there is no
/// document.
pub fn save_scan_ids_locally(scans: Vec<Scan>) -> (out: Result<String, ScanError>)
    ensures
        match out {
            Ok(text) => !has_null_id(scans@) && text@ == pretty_text(id_members(scans@), 4),
            Err(error) => has_null_id(scans@) && error is FailedToRegister,
        },
{
    let mut doc = new_record();
    let mut i: usize = 0;
    while i < scans.len()
        invariant
            i <= scans.len(),
            is_text_record(doc),
            members(doc) == id_members(scans@.take(i as int)),
            forall|j: int| 0 <= j < i ==> (#[trigger] scans@[j])@.id != null_id(),
        decreases scans.len() - i,
    {
        let scan = &scans[i];
        if is_null_id(scan.id()) {
            return Err(ScanError::FailedToRegister);
        }
        set_text(&mut doc, scan.name(), scan.id().clone());
        proof {
            assert(scans@.take(i + 1).drop_last() =~= scans@.take(i as int));
            assert(scans@.take(i + 1).last() == scans@[i as int]);
        }
        i += 1;
    }
    assert(scans@.take(i as int) =~= scans@);
    Ok(print_pretty(doc, 4))
}

/// What saving the document comes to, given how the write went: `true`
/// where it was written, the failure of the write where it was not.
pub fn confirm_saved(written: Result<(), String>) -> (out: Result<bool, ScanError>)
    ensures
        match written {
            Ok(_) => out == Ok::<bool, ScanError>(true),
            Err(failure) => out == Err::<bool, ScanError>(ScanError::IoError(failure)),
        },
{
    match written {
        Ok(_) => Ok(true),
        Err(failure) => Err(ScanError::IoError(failure)),
    }
}

} // verus!
