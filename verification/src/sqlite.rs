//! The durable store's side of the repository contract: how an order is
//! written down as a row of text columns, how a row is read back, and what
//! the store's answers mean. The statements themselves are run elsewhere.

use crate::domain::order::{
    item_views, lemma_named_reads_name, Order, OrderItem, OrderItemView, OrderStatus, OrderView,
};
use crate::domain::order_id::{hyphenated, parse, parsed_uuid, to_text, OrderId};
use crate::domain::timestamp::{parsed_rfc3339, rfc3339_of, Timestamp};
use crate::ports::order_repository::RepoError;
use crate::text::{after_prefix, same_text};
use vstd::prelude::*;
use vstd::string::StringExecFns;

verus! {

/// A row of the table of orders. The identifier, the status and the two
/// times are text; the items are one JSON text.
#[derive(Debug)]
pub struct DbOrder {
    pub id: String,
    pub customer_name: String,
    pub email: String,
    pub total_cents: i64,
    pub status: String,
    pub created_at: String,
    pub updated_at: String,
    pub items_json: String,
}

/// What the decoder made of the JSON text of a row's items: the items, or the
/// decoder's complaint.
pub type DecodedItems = Result<Vec<OrderItem>, String>;

/// The complaint about a status text that is the name of no status.
pub open spec fn unknown_status_text(status: Seq<char>) -> Seq<char> {
    "unknown status: "@ + status
}

/// The first complaint among what reading the parts of a row gave, in the
/// order in which the parts are looked at: the status, the items, the time
/// of creation, the time of the last change, the identifier.
pub open spec fn first_complaint(
    status: Seq<char>,
    items: DecodedItems,
    created_at: Result<Timestamp, String>,
    updated_at: Result<Timestamp, String>,
    id: Result<OrderId, String>,
) -> Option<Seq<char>> {
    if OrderStatus::named(status) is None {
        Some(unknown_status_text(status))
    } else if items is Err {
        Some(items->Err_0@)
    } else if created_at is Err {
        Some(created_at->Err_0@)
    } else if updated_at is Err {
        Some(updated_at->Err_0@)
    } else if id is Err {
        Some(id->Err_0@)
    } else {
        None
    }
}

impl DbOrder {
    /// The order of this row, given what reading its parts gave.
    pub open spec fn with(
        self,
        status: OrderStatus,
        items: Seq<OrderItemView>,
        created_at: Timestamp,
        updated_at: Timestamp,
        id: OrderId,
    ) -> OrderView {
        OrderView {
            id,
            customer_name: self.customer_name@,
            email: self.email@,
            items,
            total_cents: self.total_cents,
            status,
            created_at,
            updated_at,
        }
    }

    /// Whether the text columns of this row can be read: the status is the
    /// name of a status, the two times are times, the identifier is one.
    pub open spec fn readable(self) -> bool {
        &&& OrderStatus::named(self.status@) is Some
        &&& parsed_rfc3339(self.created_at@) is Some
        &&& parsed_rfc3339(self.updated_at@) is Some
        &&& parsed_uuid(self.id@) is Some
    }

    /// The order that this row stands for, given its items.
    pub open spec fn denotes(self, items: Seq<OrderItemView>) -> OrderView {
        self.with(
            OrderStatus::named(self.status@)->Some_0,
            items,
            parsed_rfc3339(self.created_at@)->Some_0,
            parsed_rfc3339(self.updated_at@)->Some_0,
            parsed_uuid(self.id@)->Some_0,
        )
    }

    /// What is known of the complaint about this row before its times and
    /// its identifier are read: that of a status text that names no status,
    /// or else that of the decoder of the items.
    pub open spec fn early_complaint(self, items: DecodedItems) -> Option<Seq<char>> {
        if OrderStatus::named(self.status@) is None {
            Some(unknown_status_text(self.status@))
        } else if items is Err {
            Some(items->Err_0@)
        } else {
            None
        }
    }

    /// Whether this row is `order` written down with the given texts of its
    /// two times, but for the items.
    pub open spec fn records_with(
        self,
        order: OrderView,
        created_at: Seq<char>,
        updated_at: Seq<char>,
    ) -> bool {
        &&& self.id@ == hyphenated(order.id)
        &&& parsed_uuid(self.id@) == Some(order.id)
        &&& self.customer_name@ == order.customer_name
        &&& self.email@ == order.email
        &&& self.total_cents == order.total_cents
        &&& self.status@ == order.status.name_text()
        &&& self.created_at@ == created_at
        &&& self.updated_at@ == updated_at
    }

    /// Whether this row is `order` written down, but for the items.
    pub open spec fn records(self, order: OrderView) -> bool {
        &&& rfc3339_of(order.created_at) is Some
        &&& rfc3339_of(order.updated_at) is Some
        &&& self.records_with(
            order,
            rfc3339_of(order.created_at)->Some_0,
            rfc3339_of(order.updated_at)->Some_0,
        )
    }

    /// Puts the order of this row together from what reading its parts gave:
    /// the decoded items, the two times and the identifier, each the value or
    /// the complaint of what read it. The status is read first: a text that
    /// names no status is a failure. The first complaint, in the order
    /// status, items, time of creation, time of the last change, identifier,
    /// is the failure.
    pub fn with_parts(
        self,
        items: DecodedItems,
        created_at: Result<Timestamp, String>,
        updated_at: Result<Timestamp, String>,
        id: Result<OrderId, String>,
    ) -> (r: Result<Order, RepoError>)
        ensures
            r is Ok <==> first_complaint(self.status@, items, created_at, updated_at, id) is None,
            r matches Ok(o) ==> o@ == self.with(
                OrderStatus::named(self.status@)->Some_0,
                item_views(items->Ok_0@),
                created_at->Ok_0,
                updated_at->Ok_0,
                id->Ok_0,
            ),
            r matches Err(e) ==> Some(e->DbError_0@) == first_complaint(
                self.status@,
                items,
                created_at,
                updated_at,
                id,
            ),
    {
        let status = match OrderStatus::from_name(self.status.as_str()) {
            Some(status) => status,
            None => {
                return Err(
                    RepoError::DbError("unknown status: ".to_owned().concat(self.status.as_str())),
                );
            },
        };
        let items = match items {
            Ok(items) => items,
            Err(complaint) => {
                return Err(RepoError::DbError(complaint));
            },
        };
        let created_at = match created_at {
            Ok(t) => t,
            Err(complaint) => {
                return Err(RepoError::DbError(complaint));
            },
        };
        let updated_at = match updated_at {
            Ok(t) => t,
            Err(complaint) => {
                return Err(RepoError::DbError(complaint));
            },
        };
        let id = match id {
            Ok(id) => id,
            Err(complaint) => {
                return Err(RepoError::DbError(complaint));
            },
        };
        Ok(
            Order {
                id,
                customer_name: self.customer_name,
                email: self.email,
                items,
                total_cents: self.total_cents,
                status,
                created_at,
                updated_at,
            },
        )
    }

    /// Reads the row back into an order. The items come decoded. The row
    /// reads exactly when its status names a status, the decoder did not
    /// complain, and the two times and the identifier read; anything else is
    /// a failure of the store, never another status or another order.
    pub fn into_order(self, items: DecodedItems) -> (r: Result<Order, RepoError>)
        ensures
            r is Ok <==> items is Ok && self.readable(),
            r matches Ok(o) ==> o@ == self.denotes(item_views(items->Ok_0@)),
            self.early_complaint(items) matches Some(complaint) ==> r is Err
                && r->Err_0->DbError_0@ == complaint,
    {
        let created_at = Timestamp::from_rfc3339(self.created_at.as_str());
        let updated_at = Timestamp::from_rfc3339(self.updated_at.as_str());
        let id = parse(self.id.as_str());
        self.with_parts(items, created_at, updated_at, id)
    }

    /// Puts the row of an order together from the texts of its two times,
    /// each the text or `None` where the calendar does not hold the time,
    /// and the encoded items. A time without a text is the failure, the time
    /// of creation first.
    pub fn of_texts(
        order: &Order,
        created_at: Option<String>,
        updated_at: Option<String>,
        items_json: String,
    ) -> (r: Result<DbOrder, RepoError>)
        ensures
            r is Ok <==> created_at is Some && updated_at is Some,
            r matches Ok(row) ==> row.records_with(
                order@,
                created_at->Some_0@,
                updated_at->Some_0@,
            ) && row.items_json@ == items_json@,
            r is Err && created_at is None ==> r->Err_0->DbError_0@ == "created_at out of range"@,
            r is Err && created_at is Some ==> r->Err_0->DbError_0@ == "updated_at out of range"@,
    {
        let created_at = match created_at {
            Some(text) => text,
            None => {
                return Err(RepoError::DbError("created_at out of range".to_owned()));
            },
        };
        let updated_at = match updated_at {
            Some(text) => text,
            None => {
                return Err(RepoError::DbError("updated_at out of range".to_owned()));
            },
        };
        Ok(
            DbOrder {
                id: to_text(order.id),
                customer_name: order.customer_name.clone(),
                email: order.email.clone(),
                total_cents: order.total_cents,
                status: order.status.name().to_owned(),
                created_at,
                updated_at,
                items_json,
            },
        )
    }

    /// Writes an order down as a row. The items come encoded. Fails only
    /// where one of the two times is outside what the calendar holds.
    pub fn from_order(order: &Order, items_json: String) -> (r: Result<DbOrder, RepoError>)
        ensures
            r is Ok <==> order.created_at.writable() && order.updated_at.writable(),
            r matches Ok(row) ==> row.records(order@) && row.items_json@ == items_json@,
    {
        let created_at = order.created_at.to_rfc3339();
        let updated_at = order.updated_at.to_rfc3339();
        DbOrder::of_texts(order, created_at, updated_at, items_json)
    }
}

/// A row reads back as the order that it records, provided that the texts of
/// the two times read back as those times.
pub proof fn lemma_recorded_is_denoted(row: DbOrder, order: OrderView)
    requires
        row.records(order),
        parsed_rfc3339(row.created_at@) == Some(order.created_at),
        parsed_rfc3339(row.updated_at@) == Some(order.updated_at),
    ensures
        row.readable(),
        row.denotes(order.items) == order,
{
    lemma_named_reads_name(order.status, row.status@);
}

/// What a lookup answers for the row that the store found, if it found one:
/// the order of the row, or absence where there is no row. A row that cannot
/// be read is a failure.
pub fn found_row(row: Option<(DbOrder, DecodedItems)>) -> (r: Result<Option<Order>, RepoError>)
    ensures
        row is None ==> r == Ok::<Option<Order>, RepoError>(None),
        row matches Some(pair) ==> (r is Ok <==> pair.1 is Ok && pair.0.readable()),
        row matches Some(pair) ==> (r matches Ok(found) ==> found is Some && found->Some_0@
            == pair.0.denotes(item_views(pair.1->Ok_0@))),
        row matches Some(pair) ==> (pair.0.early_complaint(pair.1) matches Some(complaint)
            ==> r is Err && r->Err_0->DbError_0@ == complaint),
{
    match row {
        None => Ok(None),
        Some(pair) => {
            let (row, items) = pair;
            match row.into_order(items) {
                Ok(order) => Ok(Some(order)),
                Err(e) => Err(e),
            }
        },
    }
}

/// Whether the row at `i` can be read into an order.
pub open spec fn row_reads(rows: Seq<(DbOrder, DecodedItems)>, i: int) -> bool {
    rows[i].1 is Ok && rows[i].0.readable()
}

/// The order that the row at `i` stands for.
pub open spec fn row_order(rows: Seq<(DbOrder, DecodedItems)>, i: int) -> OrderView {
    rows[i].0.denotes(item_views(rows[i].1->Ok_0@))
}

/// Whether `e` is the failure of the first row that cannot be read: where
/// that row's status names no status, or the decoder complained of its
/// items, `e` holds that complaint.
pub open spec fn is_first_failure(rows: Seq<(DbOrder, DecodedItems)>, e: RepoError) -> bool {
    exists|first: int|
        {
            &&& 0 <= first < rows.len()
            &&& !#[trigger] row_reads(rows, first)
            &&& forall|i: int| 0 <= i < first ==> row_reads(rows, i)
            &&& rows[first].0.early_complaint(rows[first].1) matches Some(complaint)
                ==> e->DbError_0@ == complaint
        }
}

/// What a listing answers for the rows that the store found: the order of
/// each row, in the order of the rows, or a failure where some row cannot be
/// read.
pub fn found_rows(rows: Vec<(DbOrder, DecodedItems)>) -> (r: Result<Vec<Order>, RepoError>)
    ensures
        r is Ok <==> forall|i: int| 0 <= i < rows.len() ==> row_reads(rows@, i),
        r matches Ok(all) ==> all.len() == rows.len(),
        r matches Ok(all) ==> forall|i: int|
            0 <= i < all.len() ==> (#[trigger] all[i])@ == row_order(rows@, i),
        r matches Err(e) ==> is_first_failure(rows@, e),
{
    let ghost given = rows@;
    let mut all: Vec<Order> = Vec::new();
    for pair in it: rows
        invariant
            it.seq() == given,
            all.len() == it.index(),
            forall|i: int| 0 <= i < it.index() ==> row_reads(given, i),
            forall|i: int| 0 <= i < all.len() ==> (#[trigger] all[i])@ == row_order(given, i),
    {
        let ghost at = all.len() as int;
        assert(pair == given[at]);
        let (row, items) = pair;
        match row.into_order(items) {
            Ok(order) => {
                all.push(order);
            },
            Err(e) => {
                assert(!row_reads(given, at));
                assert(is_first_failure(given, e));
                return Err(e);
            },
        }
    }
    Ok(all)
}

/// Whether a statement that answered with this many changed rows changed
/// any: an update or a deletion found its order exactly when it did.
pub fn any_row(rows_affected: u64) -> (any: bool)
    ensures
        any == (rows_affected > 0),
{
    rows_affected > 0
}

/// The three values of the statement that changes a status: the new status
/// by name, the time of the change, and the identifier, all as text.
#[derive(Debug)]
pub struct StatusChange {
    pub status: String,
    pub updated_at: String,
    pub id: String,
}

/// The values of the statement that gives the order under `id` the status
/// `status` at `now`. Fails only where `now` is outside what the calendar
/// holds.
pub fn status_change(
    id: OrderId,
    status: OrderStatus,
    now: Timestamp,
) -> (r: Result<StatusChange, RepoError>)
    ensures
        r is Ok <==> now.writable(),
        r matches Ok(change) ==> change.status@ == status.name_text(),
        r matches Ok(change) ==> Some(change.updated_at@) == rfc3339_of(now),
        r matches Ok(change) ==> change.id@ == hyphenated(id),
{
    match now.to_rfc3339() {
        None => Err(RepoError::DbError("updated_at out of range".to_owned())),
        Some(updated_at) => Ok(
            StatusChange { status: status.name().to_owned(), updated_at, id: to_text(id) },
        ),
    }
}

/// The path of the file behind a database URL, if there is a file: what
/// follows `sqlite://`, unless that is `:memory:`. The directory of this
/// file has to exist before the database is opened.
pub open spec fn file_behind(database_url: Seq<char>) -> Option<Seq<char>> {
    if "sqlite://"@.is_prefix_of(database_url) && database_url.skip("sqlite://"@.len() as int)
        != ":memory:"@ {
        Some(database_url.skip("sqlite://"@.len() as int))
    } else {
        None
    }
}

/// The path of the file behind a database URL, if there is a file.
pub fn database_file<'a>(database_url: &'a str) -> (path: Option<&'a str>)
    ensures
        path is Some <==> file_behind(database_url@) is Some,
        path matches Some(p) ==> Some(p@) == file_behind(database_url@),
{
    match after_prefix(database_url, "sqlite://") {
        None => None,
        Some(path) => {
            if same_text(path, ":memory:") {
                None
            } else {
                Some(path)
            }
        },
    }
}

} // verus!
