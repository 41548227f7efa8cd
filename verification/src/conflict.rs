//! The conflict & write protocol shared by every provider's
//! `create_record`: detect records colliding on `(record_type, name)`
//! and decide whether to create, overwrite exactly one, or refuse.

use vstd::prelude::*;
use crate::errors::AppError;
use crate::types::{ConflictStrategy, DnsRecord, RecordCreateRequest, RecordUpdateRequest};

verus! {

/// The single mutation a `create_record` call performs after conflict
/// detection: either a fresh create, or a rewrite of exactly one
/// existing record under its provider-native id.
#[derive(Debug)]
pub enum WriteAction {
    CreateNew,
    OverwriteExisting(String),
}

/// The ids of the records colliding with `(rt, name)`, in order.
pub open spec fn spec_conflict_ids(records: Seq<DnsRecord>, rt: Seq<char>, name: Seq<char>) -> Seq<
    Seq<char>,
>
    decreases records.len(),
{
    if records.len() == 0 {
        Seq::<Seq<char>>::empty()
    } else {
        let rest = spec_conflict_ids(records.drop_last(), rt, name);
        let r = records.last();
        if r.record_type@ == rt && r.name@ == name {
            rest.push(r.id@)
        } else {
            rest
        }
    }
}

/// Client-side conflict detection: the ids of all records whose type and
/// name both match, for providers without server-side filtering.
pub fn find_conflict_ids_client_side(records: &Vec<DnsRecord>, record_type: &str, name: &str) -> (
    ids: Vec<String>)
    ensures
        ids.deep_view() =~~= spec_conflict_ids(records@, record_type@, name@),
{
    let mut ids: Vec<String> = Vec::new();
    let mut i: usize = 0;
    proof {
        assert(ids.deep_view() =~~= spec_conflict_ids(records@.take(0), record_type@, name@));
    }
    while i < records.len()
        invariant
            i <= records.len(),
            ids.deep_view() =~~= spec_conflict_ids(records@.take(i as int), record_type@, name@),
        decreases records.len() - i,
    {
        proof {
            assert(records@.take(i + 1).drop_last() =~= records@.take(i as int));
            assert(records@.take(i + 1).last() == records@[i as int]);
        }
        let r = &records[i];
        if crate::strings::str_eq(r.record_type.as_str(), record_type) && crate::strings::str_eq(
            r.name.as_str(),
            name,
        ) {
            let ghost dv = ids.deep_view();
            ids.push(r.id.clone());
            proof {
                assert(ids.deep_view() =~~= dv.push(records@[i as int].id@));
            }
        }
        i = i + 1;
    }
    proof {
        assert(records@.take(records.len() as int) =~= records@);
    }
    ids
}

/// Decides the write action of `create_record` from the ids of existing
/// conflicting records and the requested strategy. Exactly these cases
/// hold: no conflict always creates; one conflict under `Overwrite`
/// rewrites that record; any conflict under `DoNotCreate`, and two or
/// more conflicts under `Overwrite`, fail with `conflict` and no action.
pub fn resolve_conflict(strategy: ConflictStrategy, conflict_ids: &Vec<String>) -> (r: Result<
    WriteAction,
    AppError,
>)
    ensures
        conflict_ids.len() == 0 ==> (r matches Ok(a) && a is CreateNew),
        conflict_ids.len() == 1 && strategy is Overwrite ==> (r matches Ok(a) && (a matches
            WriteAction::OverwriteExisting(id) && id@ == conflict_ids@[0]@)),
        conflict_ids.len() >= 1 && strategy is DoNotCreate ==> (r matches Err(e) && e.code@
            == "conflict"@ && e.message@ == "Record already exists"@),
        conflict_ids.len() >= 2 && strategy is Overwrite ==> (r matches Err(e) && e.code@
            == "conflict"@ && e.message@ == "Multiple conflicting records found"@),
{
    if conflict_ids.len() == 0 {
        Ok(WriteAction::CreateNew)
    } else {
        match strategy {
            ConflictStrategy::DoNotCreate => Err(
                AppError::new("conflict", "Record already exists"),
            ),
            ConflictStrategy::Overwrite => {
                if conflict_ids.len() != 1 {
                    Err(AppError::new("conflict", "Multiple conflicting records found"))
                } else {
                    Ok(WriteAction::OverwriteExisting(conflict_ids[0].clone()))
                }
            },
        }
    }
}

/// Builds the update request that rewrites the conflicting record: the
/// existing provider-native id with the new field values carried over.
pub fn make_overwrite_request(req: &RecordCreateRequest, id: String) -> (u: RecordUpdateRequest)
    ensures
        u.id@ == id@,
        u.record_type@ == req.record_type@,
        u.name@ == req.name@,
        u.content@ == req.content@,
        u.ttl == req.ttl,
        u.mx_priority == req.mx_priority,
        u.srv_priority == req.srv_priority,
        u.srv_weight == req.srv_weight,
        u.srv_port == req.srv_port,
        u.caa_flags == req.caa_flags,
        crate::strings::opt_string_view(u.caa_tag) == crate::strings::opt_string_view(req.caa_tag),
{
    let tag: Option<String> = match &req.caa_tag {
        Some(t) => Some(t.clone()),
        None => None,
    };
    RecordUpdateRequest {
        id,
        record_type: req.record_type.clone(),
        name: req.name.clone(),
        content: req.content.clone(),
        ttl: req.ttl,
        mx_priority: req.mx_priority,
        srv_priority: req.srv_priority,
        srv_weight: req.srv_weight,
        srv_port: req.srv_port,
        caa_flags: req.caa_flags,
        caa_tag: tag,
    }
}

} // verus!
