use vstd::prelude::*;
use crate::config::settings_result;
use crate::error::lemma_error_message_not_empty;
use crate::handler::{answers, catalog_addons, post_result, Body, Response};
use crate::model::{Addon, Message};
use crate::rows::{
    column_at, integer_of, positional_addon, positional_addons, text_of, typed_addon,
    typed_addons, Column, MappingMode,
};

verus! {

/// A posted message is answered with that same message.
pub proof fn lemma_echo_round_trip(m: Message, r: Response)
    requires
        answers(post_result(Body::Parsed(m)), r),
    ensures
        r == Response::Echo(m),
        r->Echo_0.message@ == m.message@,
{
}

/// A POST with no body, or with one that is not a message, is answered with
/// an error envelope whose description is not empty.
pub proof fn lemma_bad_body_answered_with_error(body: Body, r: Response)
    requires
        !(body is Parsed),
        answers(post_result(body), r),
    ensures
        r is Error,
        r->Error_0.error@.len() > 0,
{
    lemma_error_message_not_empty(post_result(body)->Err_0);
}

/// Whenever one of the three settings is missing, the first step of the
/// catalog handler (`begin_get`) fails with a described error, so no query
/// runs and the request is answered with an error envelope, never a catalog.
pub proof fn lemma_missing_setting_is_error(
    resource_arn: Option<String>,
    secret_arn: Option<String>,
    region: Option<String>,
    r: Response,
)
    requires
        resource_arn is None || secret_arn is None || region is None,
        answers(Err(settings_result(resource_arn, secret_arn, region)->Err_0), r),
    ensures
        settings_result(resource_arn, secret_arn, region) is Err,
        r is Error,
        r->Error_0.error@.len() > 0,
{
    lemma_error_message_not_empty(settings_result(resource_arn, secret_arn, region)->Err_0);
}

/// An empty record set is a success with no addons, in either mapping mode.
pub proof fn lemma_empty_record_set(mode: MappingMode)
    ensures
        catalog_addons(mode, Seq::empty()) == Some(Seq::<Addon>::empty()),
{
}

/// A positional row without a download count gives no addon.
pub proof fn lemma_missing_download_count_skipped(row: Seq<Column>)
    requires
        integer_of(column_at(row, 2)) is None,
    ensures
        positional_addon(row) is None,
{
}

/// Adding a row to a positional batch keeps the addons of the other rows as
/// they were, and adds the row's own addon after them exactly when it reads.
pub proof fn lemma_positional_append(rows: Seq<Vec<Column>>, row: Vec<Column>)
    ensures
        positional_addons(rows.push(row)) == match positional_addon(row@) {
            Some(a) => positional_addons(rows).push(a),
            None => positional_addons(rows),
        },
{
    assert(rows.push(row).drop_last() == rows);
}

/// A typed row whose optional columns are all null still decodes, to an
/// addon whose optional fields are all empty.
pub proof fn lemma_typed_nulls_kept(row: Seq<Column>)
    requires
        integer_of(column_at(row, 0)) is Some,
        text_of(column_at(row, 1)) is Some,
        forall|i: int| 2 <= i < 11 ==> #[trigger] column_at(row, i) == Column::Null,
    ensures
        typed_addon(row) == Some(
            Addon {
                id: integer_of(column_at(row, 0))->Some_0,
                repository: text_of(column_at(row, 1))->Some_0,
                repository_name: None,
                source: None,
                description: None,
                homepage: None,
                image_url: None,
                owner_image_url: None,
                owner_name: None,
                total_download_count: None,
                updated_at: None,
            },
        ),
{
    assert(column_at(row, 2) == Column::Null);
    assert(column_at(row, 3) == Column::Null);
    assert(column_at(row, 4) == Column::Null);
    assert(column_at(row, 5) == Column::Null);
    assert(column_at(row, 6) == Column::Null);
    assert(column_at(row, 7) == Column::Null);
    assert(column_at(row, 8) == Column::Null);
    assert(column_at(row, 9) == Column::Null);
    assert(column_at(row, 10) == Column::Null);
}

/// When every row of a typed batch decodes, each gives one addon, in order:
/// none is dropped.
pub proof fn lemma_typed_keeps_every_row(rows: Seq<Vec<Column>>)
    requires
        forall|i: int| 0 <= i < rows.len() ==> (#[trigger] typed_addon(rows[i]@)) is Some,
    ensures
        typed_addons(rows) is Some,
        typed_addons(rows)->Some_0.len() == rows.len(),
        forall|i: int|
            0 <= i < rows.len() ==> typed_addons(rows)->Some_0[i] == (#[trigger] typed_addon(
                rows[i]@,
            ))->Some_0,
    decreases rows.len(),
{
    if rows.len() > 0 {
        let front = rows.drop_last();
        assert forall|i: int| 0 <= i < front.len() implies (#[trigger] typed_addon(
            front[i]@,
        )) is Some by {
            assert(front[i] == rows[i]);
        }
        lemma_typed_keeps_every_row(front);
        assert(typed_addon(rows[rows.len() - 1]@) is Some);
        assert forall|i: int| 0 <= i < rows.len() implies typed_addons(rows)->Some_0[i] == (
        #[trigger] typed_addon(rows[i]@))->Some_0 by {
            if i < rows.len() - 1 {
                assert(front[i] == rows[i]);
            }
        }
    }
}

} // verus!
