//! Open positions: reading the data service's answer, and picking what can be
//! redeemed or merged.
use vstd::prelude::*;

use crate::api::PolymarketApi;
use crate::models::{MergeablePosition, PositionView};
use crate::text::{hex_prefixed, lex_less, text_eq, text_less, with_hex_prefix};

verus! {

/// A JSON value, with what is read of it here.
#[verifier::external_type_specification]
#[verifier::external_body]
pub struct ExValue(serde_json::Value);

/// A member of a JSON object.
#[derive(Debug)]
pub enum JsonField {
    Missing,
    /// A number, as text.
    Number(String),
    Text(String),
    Other,
}

/// What a [`JsonField`] says.
#[verifier::ext_equal]
pub enum FieldView {
    Missing,
    Number(Seq<char>),
    Text(Seq<char>),
    Other,
}

impl DeepView for JsonField {
    type V = FieldView;

    open spec fn deep_view(&self) -> FieldView {
        match self {
            JsonField::Missing => FieldView::Missing,
            JsonField::Number(text) => FieldView::Number(text@),
            JsonField::Text(text) => FieldView::Text(text@),
            JsonField::Other => FieldView::Other,
        }
    }
}

/// The members of a JSON object; none for any other JSON value.
pub uninterp spec fn json_members(value: serde_json::Value) -> Map<Seq<char>, FieldView>;

/// The rows of a JSON array, each as its members; none for a text that is no
/// JSON array.
pub uninterp spec fn json_rows(body: Seq<u8>) -> Seq<Map<Seq<char>, FieldView>>;

/// Calls `serde_json::from_slice` for an array of values; where that fails there
/// are no rows. What the rows are is only named.
#[verifier::external_body]
fn parse_rows(body: &[u8]) -> (r: Vec<serde_json::Value>)
    ensures
        r@.map_values(|row: serde_json::Value| json_members(row)) == json_rows(body@),
{
    serde_json::from_slice::<Vec<serde_json::Value>>(body).unwrap_or_default()
}

/// Calls `serde_json::Value::get` and tells the kinds of value apart. Claimed is
/// that it reads the members of the row.
#[verifier::external_body]
fn json_field(row: &serde_json::Value, key: &str) -> (r: JsonField)
    ensures
        r.deep_view() == member(json_members(*row), key@),
{
    match row.get(key) {
        None => JsonField::Missing,
        Some(serde_json::Value::Number(number)) => JsonField::Number(number.to_string()),
        Some(serde_json::Value::String(text)) => JsonField::Text(text.clone()),
        Some(_) => JsonField::Other,
    }
}

/// The member of a JSON object under a key.
pub open spec fn member(members: Map<Seq<char>, FieldView>, key: Seq<char>) -> FieldView {
    if members.contains_key(key) {
        members[key]
    } else {
        FieldView::Missing
    }
}

/// The text of a member that is one.
pub open spec fn member_text(members: Map<Seq<char>, FieldView>, key: Seq<char>) -> Option<
    Seq<char>,
> {
    match member(members, key) {
        FieldView::Text(text) => Some(text),
        _ => None,
    }
}

/// A position as the data service reports it.
#[derive(Debug)]
pub struct PositionRow {
    pub size: JsonField,
    pub condition_id: Option<String>,
    pub title: Option<String>,
}

/// What a [`PositionRow`] says.
#[verifier::ext_equal]
pub struct RowView {
    pub size: FieldView,
    pub condition_id: Option<Seq<char>>,
    pub title: Option<Seq<char>>,
}

impl DeepView for PositionRow {
    type V = RowView;

    open spec fn deep_view(&self) -> RowView {
        RowView {
            size: self.size.deep_view(),
            condition_id: self.condition_id.deep_view(),
            title: self.title.deep_view(),
        }
    }
}

/// The position that a row of the answer describes.
pub open spec fn position_row(members: Map<Seq<char>, FieldView>) -> RowView {
    RowView {
        size: member(members, "size"@),
        condition_id: member_text(members, "conditionId"@),
        title: member_text(members, "title"@),
    }
}

/// How the size of a position, read as a floating-point number, compares with
/// zero.
#[derive(Debug, Clone, Copy, PartialEq, Eq, Structural)]
pub enum SizeSign {
    Positive,
    /// Zero or less.
    NotPositive,
    /// Not a number: neither above zero nor not above it.
    Undefined,
}

/// The size of a position, read as a floating-point number.
#[derive(Debug, Clone, Copy)]
pub struct SizeReading {
    pub sign: SizeSign,
    /// The size in micros, cut towards zero and held within the range.
    pub micros: u64,
}

/// The condition of a row that can be redeemed: its size is above zero, and it
/// names its condition.
pub open spec fn redeemable_id(row: RowView, size: Option<SizeReading>) -> Option<Seq<char>> {
    match (size, row.condition_id) {
        (Some(reading), Some(id)) => if reading.sign == SizeSign::Positive {
            Some(hex_prefixed(id))
        } else {
            None
        },
        _ => None,
    }
}

/// The position of a row that can be merged: its size is not zero or less, and
/// it names its condition.
pub open spec fn mergeable(row: RowView, size: Option<SizeReading>) -> Option<PositionView> {
    match (size, row.condition_id) {
        (Some(reading), Some(id)) => if reading.sign == SizeSign::NotPositive {
            None
        } else {
            Some(
                PositionView {
                    condition_id: hex_prefixed(id),
                    size: reading.micros,
                    title: match row.title {
                        Some(title) => title,
                        None => "Unknown"@,
                    },
                },
            )
        },
        _ => None,
    }
}

/// The positions of the first `n` rows that can be merged, in their order.
pub open spec fn mergeables(
    rows: Seq<PositionRow>,
    sizes: Seq<Option<SizeReading>>,
    n: nat,
) -> Seq<PositionView>
    decreases n,
{
    if n == 0 {
        Seq::empty()
    } else {
        let before = mergeables(rows, sizes, (n - 1) as nat);
        match mergeable(rows[n - 1].deep_view(), sizes[n - 1]) {
            Some(position) => before.push(position),
            None => before,
        }
    }
}

/// The texts are in order, and none occurs twice.
pub open spec fn strictly_sorted(texts: Seq<Seq<char>>) -> bool {
    forall|i: int, j: int|
        0 <= i < j < texts.len() ==> #[trigger] lex_less(#[trigger] texts[i], #[trigger] texts[j])
}

/// The text is the condition of a row whose size was read and is above zero.
pub open spec fn names_a_row(
    id: Seq<char>,
    rows: Seq<PositionRow>,
    sizes: Seq<Option<SizeReading>>,
) -> bool {
    exists|i: int|
        0 <= i < rows.len() && (#[trigger] rows[i]).condition_id is Some && hex_prefixed(
            rows[i].condition_id->0@,
        ) == id && sizes[i] is Some && sizes[i]->0.sign == SizeSign::Positive
}

/// The texts are the conditions of all rows whose size was read and is above
/// zero, and no others.
pub open spec fn lists_all(
    ids: Seq<Seq<char>>,
    rows: Seq<PositionRow>,
    sizes: Seq<Option<SizeReading>>,
) -> bool {
    &&& forall|i: int|
        0 <= i < rows.len() && (#[trigger] rows[i]).condition_id is Some && sizes[i] is Some
            && sizes[i]->0.sign == SizeSign::Positive ==> ids.contains(
            hex_prefixed(rows[i].condition_id->0@),
        )
    &&& forall|k: int| 0 <= k < ids.len() ==> names_a_row(#[trigger] ids[k], rows, sizes)
}

/// Which positions the data service is asked for.
#[derive(Debug, Clone, Copy, PartialEq, Eq, Structural)]
pub enum PositionFilter {
    Redeemable,
    Mergeable,
}

/// What the data service is asked: the wallet, the filter and the number of
/// positions.
pub open spec fn query_of(wallet: Seq<char>, filter: PositionFilter) -> Seq<(Seq<char>, Seq<char>)> {
    seq![
        ("user"@, hex_prefixed(wallet)),
        (
            if filter == PositionFilter::Redeemable {
                "redeemable"@
            } else {
                "mergeable"@
            },
            "true"@,
        ),
        ("limit"@, "500"@),
    ]
}

/// The data service is asked for the positions of the wallet that is named, for
/// those that can be redeemed or those that can be merged, and for up to 500.
pub proof fn a_query_is_of_its_wallet(wallet: Seq<char>, filter: PositionFilter)
    ensures
        ({
            let asked = query_of(wallet, filter);
            &&& asked.len() == 3
            &&& "0x"@.is_prefix_of(wallet) ==> asked[0] == ("user"@, wallet)
            &&& !"0x"@.is_prefix_of(wallet) ==> asked[0] == ("user"@, "0x"@ + wallet)
            &&& filter is Redeemable ==> asked[1] == ("redeemable"@, "true"@)
            &&& filter is Mergeable ==> asked[1] == ("mergeable"@, "true"@)
            &&& asked[2] == ("limit"@, "500"@)
        }),
{
}

/// What the data service is asked: the wallet, the filter and the number of
/// positions.
pub fn positions_query(wallet: &str, filter: PositionFilter) -> (r: Vec<(String, String)>)
    ensures
        r.deep_view() == query_of(wallet@, filter),
{
    let name = match filter {
        PositionFilter::Redeemable => "redeemable".to_owned(),
        PositionFilter::Mergeable => "mergeable".to_owned(),
    };
    let mut query: Vec<(String, String)> = Vec::new();
    query.push(("user".to_owned(), with_hex_prefix(wallet)));
    query.push((name, "true".to_owned()));
    query.push(("limit".to_owned(), "500".to_owned()));
    assert(query.deep_view()[0] == query@[0].deep_view());
    assert(query.deep_view()[1] == query@[1].deep_view());
    assert(query.deep_view()[2] == query@[2].deep_view());
    query
}

/// The rows of the data service's answer.
pub fn read_positions(body: &[u8]) -> (r: Vec<PositionRow>)
    ensures
        r.deep_view() == json_rows(body@).map_values(
            |members: Map<Seq<char>, FieldView>| position_row(members),
        ),
{
    let values = parse_rows(body);
    let mut rows: Vec<PositionRow> = Vec::new();
    let mut i: usize = 0;
    while i < values.len()
        invariant
            0 <= i <= values@.len(),
            rows@.len() == i,
            forall|j: int|
                0 <= j < i ==> (#[trigger] rows@[j]).deep_view() == position_row(
                    json_members(values@[j]),
                ),
        decreases values@.len() - i,
    {
        let size = json_field(&values[i], "size");
        let condition_id = field_text(json_field(&values[i], "conditionId"));
        let title = field_text(json_field(&values[i], "title"));
        rows.push(PositionRow { size, condition_id, title });
        i = i + 1;
    }
    proof {
        let all = values@.map_values(|row: serde_json::Value| json_members(row));
        assert forall|j: int| 0 <= j < rows@.len() implies #[trigger] rows.deep_view()[j]
            == position_row(json_rows(body@)[j]) by {
            assert(rows.deep_view()[j] == rows@[j].deep_view());
            assert(all[j] == json_members(values@[j]));
        }
        assert(rows.deep_view() =~= json_rows(body@).map_values(
            |members: Map<Seq<char>, FieldView>| position_row(members),
        ));
    }
    rows
}

/// The rows of an answer with this HTTP status.
pub open spec fn answered_rows(
    filter: PositionFilter,
    status: u16,
    rows: Seq<Map<Seq<char>, FieldView>>,
) -> Result<Seq<RowView>, u16> {
    if 200 <= status < 300 {
        Ok(rows.map_values(|members: Map<Seq<char>, FieldView>| position_row(members)))
    } else if filter == PositionFilter::Mergeable {
        Ok(Seq::empty())
    } else {
        Err(status)
    }
}

/// An answer that succeeded holds every row that was sent, in its order; where
/// the service refused there are no mergeable positions, and redeemable ones are
/// an error with its status.
pub proof fn an_answer_holds_every_row(
    filter: PositionFilter,
    status: u16,
    rows: Seq<Map<Seq<char>, FieldView>>,
)
    ensures
        ({
            let made = answered_rows(filter, status, rows);
            let fine = 200 <= status && status <= 299;
            &&& fine ==> made is Ok && made->Ok_0.len() == rows.len() && forall|i: int|
                0 <= i < rows.len() ==> #[trigger] made->Ok_0[i] == position_row(rows[i])
            &&& !fine && filter is Mergeable ==> made is Ok && made->Ok_0.len() == 0
            &&& !fine && filter is Redeemable ==> made is Err && made->Err_0 == status
        }),
{
}

/// The rows of an answer with this HTTP status. Where the service refused, that
/// is an error for redeemable positions, and means no mergeable ones.
pub fn read_answer(filter: PositionFilter, status: u16, body: &[u8]) -> (r: Result<
    Vec<PositionRow>,
    u16,
>)
    ensures
        match answered_rows(filter, status, json_rows(body@)) {
            Ok(rows) => r matches Ok(list) && list.deep_view() == rows,
            Err(code) => r == Err::<Vec<PositionRow>, u16>(code),
        },
{
    if status >= 200 && status < 300 {
        Ok(read_positions(body))
    } else {
        match filter {
            PositionFilter::Mergeable => {
                let none: Vec<PositionRow> = Vec::new();
                assert(none.deep_view() =~= Seq::<RowView>::empty());
                Ok(none)
            },
            PositionFilter::Redeemable => Err(status),
        }
    }
}

/// The text of a member that is one.
fn field_text(field: JsonField) -> (r: Option<String>)
    ensures
        r.deep_view() == match field.deep_view() {
            FieldView::Text(text) => Some(text),
            _ => None,
        },
{
    match field {
        JsonField::Text(text) => Some(text),
        _ => None,
    }
}

/// Comparing texts is transitive.
proof fn lemma_lex_transitive(a: Seq<char>, b: Seq<char>, c: Seq<char>)
    requires
        lex_less(a, b),
        lex_less(b, c),
    ensures
        lex_less(a, c),
    decreases a.len(),
{
    if a.len() > 0 && b.len() > 0 && c.len() > 0 && a[0] == b[0] && b[0] == c[0] {
        lemma_lex_transitive(a.drop_first(), b.drop_first(), c.drop_first());
    }
}

/// Of two different texts one comes first.
proof fn lemma_lex_total(a: Seq<char>, b: Seq<char>)
    requires
        a != b,
    ensures
        lex_less(a, b) || lex_less(b, a),
    decreases a.len(),
{
    if a.len() > 0 && b.len() > 0 {
        if a[0] == b[0] {
            if a.drop_first() == b.drop_first() {
                assert(a =~= seq![a[0]] + a.drop_first());
                assert(b =~= seq![b[0]] + b.drop_first());
            }
            lemma_lex_total(a.drop_first(), b.drop_first());
        }
    } else if a.len() == 0 && b.len() == 0 {
        assert(a =~= b);
    }
}

/// No text comes before itself.
proof fn lemma_lex_irreflexive(a: Seq<char>)
    ensures
        !lex_less(a, a),
    decreases a.len(),
{
    if a.len() > 0 {
        lemma_lex_irreflexive(a.drop_first());
    }
}

/// Puts a text in its place among sorted ones, unless it stands there already.
fn insert_sorted(texts: &mut Vec<String>, text: String)
    requires
        strictly_sorted(old(texts).deep_view()),
    ensures
        strictly_sorted(final(texts).deep_view()),
        forall|t: Seq<char>| #[trigger]
            final(texts).deep_view().contains(t) == (old(texts).deep_view().contains(t) || t
                == text@),
{
    let ghost before = texts.deep_view();
    let mut place: usize = 0;
    while place < texts.len() && text_less(texts[place].as_str(), text.as_str())
        invariant
            0 <= place <= texts@.len(),
            before == texts.deep_view(),
            forall|j: int| 0 <= j < place ==> lex_less(#[trigger] before[j], text@),
        decreases texts@.len() - place,
    {
        assert(before[place as int] == texts@[place as int]@);
        place = place + 1;
    }
    if place < texts.len() {
        assert(before[place as int] == texts@[place as int]@);
        if text_eq(texts[place].as_str(), text.as_str()) {
            assert(before.contains(text@));
            return;
        }
        proof {
            lemma_lex_total(before[place as int], text@);
            assert forall|j: int| place <= j < before.len() implies lex_less(
                text@,
                #[trigger] before[j],
            ) by {
                if j > place {
                    lemma_lex_transitive(text@, before[place as int], before[j]);
                }
            }
        }
    }
    texts.insert(place, text);
    proof {
        let after = texts.deep_view();
        assert forall|j: int| 0 <= j < after.len() implies #[trigger] after[j] == (if j < place {
            before[j]
        } else if j == place {
            text@
        } else {
            before[j - 1]
        }) by {
            assert(after[j] == texts@[j]@);
        }
        assert forall|t: Seq<char>| #[trigger]
            after.contains(t) == (before.contains(t) || t == text@) by {
            if before.contains(t) {
                let j = choose|j: int| 0 <= j < before.len() && before[j] == t;
                assert(after[if j < place {
                    j
                } else {
                    j + 1
                }] == t);
            }
            if after.contains(t) && t != text@ {
                let j = choose|j: int| 0 <= j < after.len() && after[j] == t;
                assert(before[if j < place {
                    j
                } else {
                    j - 1
                }] == t);
            }
            assert(after[place as int] == text@);
        }
    }
}

impl PolymarketApi {
    /// The conditions that can be redeemed, in order and each once. A size comes
    /// with each row.
    pub fn get_redeemable_positions(rows: &Vec<PositionRow>, sizes: &Vec<Option<SizeReading>>) -> (r:
        Vec<String>)
        requires
            rows@.len() == sizes@.len(),
        ensures
            strictly_sorted(r.deep_view()),
            lists_all(r.deep_view(), rows@, sizes@),
            forall|id: Seq<char>| #[trigger]
                r.deep_view().contains(id) == exists|i: int|
                    0 <= i < rows@.len() && redeemable_id(
                        (#[trigger] rows@[i]).deep_view(),
                        sizes@[i],
                    ) == Some(id),
    {
        let mut ids: Vec<String> = Vec::new();
        assert(ids.deep_view() =~= Seq::<Seq<char>>::empty());
        let mut i: usize = 0;
        while i < rows.len()
            invariant
                0 <= i <= rows@.len(),
                rows@.len() == sizes@.len(),
                strictly_sorted(ids.deep_view()),
                forall|id: Seq<char>| #[trigger]
                    ids.deep_view().contains(id) == exists|j: int|
                        0 <= j < i && redeemable_id((#[trigger] rows@[j]).deep_view(), sizes@[j])
                            == Some(id),
            decreases rows@.len() - i,
        {
            let ghost before = ids.deep_view();
            let ghost found = redeemable_id(rows@[i as int].deep_view(), sizes@[i as int]);
            let positive = match sizes[i] {
                Some(reading) => reading.sign == SizeSign::Positive,
                None => false,
            };
            if positive {
                if let Some(id) = &rows[i].condition_id {
                    insert_sorted(&mut ids, with_hex_prefix(id.as_str()));
                }
            }
            proof {
                assert forall|id: Seq<char>| #[trigger]
                    ids.deep_view().contains(id) == exists|j: int|
                        0 <= j < i + 1 && redeemable_id((#[trigger] rows@[j]).deep_view(), sizes@[j])
                            == Some(id) by {
                    assert(ids.deep_view().contains(id) == (before.contains(id) || found == Some(id)));
                    if before.contains(id) {
                        let j = choose|j: int|
                            0 <= j < i && redeemable_id((#[trigger] rows@[j]).deep_view(), sizes@[j])
                                == Some(id);
                        assert(redeemable_id(rows@[j].deep_view(), sizes@[j]) == Some(id));
                    }
                    if found == Some(id) {
                        assert(redeemable_id(rows@[i as int].deep_view(), sizes@[i as int]) == Some(
                            id,
                        ));
                    }
                }
            }
            i = i + 1;
        }
        proof {
            assert forall|i: int|
                0 <= i < rows@.len() && (#[trigger] rows@[i]).condition_id is Some && sizes@[i]
                    is Some && sizes@[i]->0.sign == SizeSign::Positive implies ids.deep_view().contains(
                hex_prefixed(rows@[i].condition_id->0@),
            ) by {
                assert(redeemable_id(rows@[i].deep_view(), sizes@[i]) == Some(
                    hex_prefixed(rows@[i].condition_id->0@),
                ));
            }
            assert forall|k: int| 0 <= k < ids.deep_view().len() implies names_a_row(
                #[trigger] ids.deep_view()[k],
                rows@,
                sizes@,
            ) by {
                let id = ids.deep_view()[k];
                assert(ids.deep_view().contains(id));
                let i = choose|i: int|
                    0 <= i < rows@.len() && redeemable_id((#[trigger] rows@[i]).deep_view(), sizes@[i])
                        == Some(id);
                assert(rows@[i].condition_id is Some);
            }
        }
        ids
    }

    /// The positions that can be merged, in the order of their rows. A size comes
    /// with each row.
    pub fn get_mergeable_positions(rows: &Vec<PositionRow>, sizes: &Vec<Option<SizeReading>>) -> (r:
        Vec<MergeablePosition>)
        requires
            rows@.len() == sizes@.len(),
        ensures
            r.deep_view() == mergeables(rows@, sizes@, rows@.len()),
    {
        let mut positions: Vec<MergeablePosition> = Vec::new();
        assert(positions.deep_view() =~= Seq::<PositionView>::empty());
        let mut i: usize = 0;
        while i < rows.len()
            invariant
                0 <= i <= rows@.len(),
                rows@.len() == sizes@.len(),
                positions.deep_view() == mergeables(rows@, sizes@, i as nat),
            decreases rows@.len() - i,
        {
            let ghost before = positions.deep_view();
            if let Some(reading) = sizes[i] {
                if reading.sign != SizeSign::NotPositive {
                    if let Some(id) = &rows[i].condition_id {
                        let title = match &rows[i].title {
                            Some(text) => text.clone(),
                            None => "Unknown".to_owned(),
                        };
                        let position = MergeablePosition {
                            condition_id: with_hex_prefix(id.as_str()),
                            size: reading.micros,
                            title,
                        };
                        positions.push(position);
                        assert(positions.deep_view() =~= before.push(position.deep_view()));
                    }
                }
            }
            i = i + 1;
        }
        positions
    }
}

/// Two sorted lists of the same texts are the same, so that the list of
/// redeemable conditions does not depend on the order of the rows.
pub proof fn sorted_lists_are_equal(a: Seq<Seq<char>>, b: Seq<Seq<char>>)
    requires
        strictly_sorted(a),
        strictly_sorted(b),
        forall|t: Seq<char>| #[trigger] a.contains(t) == b.contains(t),
    ensures
        a == b,
    decreases a.len(),
{
    if a.len() == 0 {
        if b.len() > 0 {
            assert(b.contains(b[0]));
            assert(a.contains(b[0]));
        }
        assert(a =~= b);
    } else if b.len() == 0 {
        assert(a.contains(a[0]));
        assert(b.contains(a[0]));
    } else {
        let x = a.last();
        let y = b.last();
        assert(x == y) by {
            assert(a.contains(x));
            assert(b.contains(y));
            assert(b.contains(x));
            assert(a.contains(y));
            if x != y {
                let i = choose|i: int| 0 <= i < b.len() && b[i] == x;
                let j = choose|j: int| 0 <= j < a.len() && a[j] == y;
                assert(lex_less(b[i], b[b.len() - 1]));
                assert(lex_less(a[j], a[a.len() - 1]));
                lemma_lex_transitive(x, y, x);
                lemma_lex_irreflexive(x);
            }
        }
        let front_a = a.drop_last();
        let front_b = b.drop_last();
        assert forall|t: Seq<char>| #[trigger] front_a.contains(t) == front_b.contains(t) by {
            lemma_front_contains(a, t);
            lemma_front_contains(b, t);
            assert(a.contains(t) == b.contains(t));
        }
        sorted_lists_are_equal(front_a, front_b);
        assert(a =~= front_a.push(x));
        assert(b =~= front_b.push(y));
    }
}

/// All but the last text of a sorted list.
proof fn lemma_front_contains(a: Seq<Seq<char>>, t: Seq<char>)
    requires
        strictly_sorted(a),
        a.len() > 0,
    ensures
        a.drop_last().contains(t) == (a.contains(t) && t != a.last()),
{
    let front = a.drop_last();
    if front.contains(t) {
        let i = choose|i: int| 0 <= i < front.len() && front[i] == t;
        assert(a[i] == t);
        assert(lex_less(a[i], a[a.len() - 1]));
        lemma_lex_irreflexive(t);
    }
    if a.contains(t) && t != a.last() {
        let i = choose|i: int| 0 <= i < a.len() && a[i] == t;
        assert(front[i] == t);
    }
}

/// Every condition that can be redeemed or merged starts with `0x`.
pub proof fn picked_conditions_are_prefixed(row: RowView, size: Option<SizeReading>)
    ensures
        redeemable_id(row, size) matches Some(id) ==> "0x"@.is_prefix_of(id),
        mergeable(row, size) matches Some(position) ==> "0x"@.is_prefix_of(position.condition_id),
        redeemable_id(row, size) matches Some(id) ==> mergeable(row, size) is Some && mergeable(
            row,
            size,
        )->0.condition_id == id,
{
    if let Some(id) = row.condition_id {
        crate::text::hex_prefixed_is_idempotent(id);
    }
}

/// A row is picked for a merge exactly where it names its condition and its size
/// was read and is not zero or less; and then with the whole size that was read,
/// whatever it is, and the title of the row.
pub proof fn a_row_is_merged_whole(row: RowView, size: Option<SizeReading>)
    ensures
        ({
            let picked = mergeable(row, size);
            &&& picked is Some == (row.condition_id is Some && size is Some && size->0.sign
                != SizeSign::NotPositive)
            &&& picked is Some ==> {
                &&& picked->0.size == size->0.micros
                &&& "0x"@.is_prefix_of(row.condition_id->0) ==> Some(picked->0.condition_id)
                    == row.condition_id
                &&& !"0x"@.is_prefix_of(row.condition_id->0) ==> picked->0.condition_id == "0x"@
                    + row.condition_id->0
                &&& row.title is Some ==> Some(picked->0.title) == row.title
                &&& row.title is None ==> picked->0.title == "Unknown"@
            }
        }),
{
}

/// A row is picked for a redemption exactly where it names its condition and its
/// size was read and is above zero.
pub proof fn a_row_above_zero_is_redeemed(row: RowView, size: Option<SizeReading>)
    ensures
        ({
            let picked = redeemable_id(row, size);
            &&& picked is Some == (row.condition_id is Some && size is Some && size->0.sign
                == SizeSign::Positive)
            &&& picked is Some && "0x"@.is_prefix_of(row.condition_id->0) ==> picked
                == row.condition_id
            &&& picked is Some && !"0x"@.is_prefix_of(row.condition_id->0) ==> picked == Some(
                "0x"@ + row.condition_id->0,
            )
        }),
{
}

/// The sizes of the positions together.
pub open spec fn total_size(positions: Seq<PositionView>) -> int
    decreases positions.len(),
{
    if positions.len() == 0 {
        0
    } else {
        total_size(positions.drop_last()) + positions.last().size
    }
}

/// The sizes together that were read for rows that name their condition, but for
/// those of zero or less.
pub open spec fn total_read(
    rows: Seq<PositionRow>,
    sizes: Seq<Option<SizeReading>>,
    n: nat,
) -> int
    decreases n,
{
    if n == 0 {
        0
    } else {
        let before = total_read(rows, sizes, (n - 1) as nat);
        match sizes[n - 1] {
            Some(reading) => if rows[n - 1].condition_id is Some && reading.sign
                != SizeSign::NotPositive {
                before + reading.micros
            } else {
                before
            },
            None => before,
        }
    }
}

/// What is merged is all that was read, and not more.
pub proof fn nothing_is_left_unmerged(
    rows: Seq<PositionRow>,
    sizes: Seq<Option<SizeReading>>,
    n: nat,
)
    requires
        n <= rows.len(),
        n <= sizes.len(),
    ensures
        total_size(mergeables(rows, sizes, n)) == total_read(rows, sizes, n),
    decreases n,
{
    if n > 0 {
        let before = mergeables(rows, sizes, (n - 1) as nat);
        nothing_is_left_unmerged(rows, sizes, (n - 1) as nat);
        if let Some(position) = mergeable(rows[n - 1].deep_view(), sizes[n - 1]) {
            assert(before.push(position).drop_last() =~= before);
        }
    }
}

/// The positions to be merged are those of the picked rows, in the order of the
/// rows and each once: a row more adds its own position at the end, with the
/// size that was read for it, or adds nothing.
pub proof fn each_row_adds_its_own_position(
    rows: Seq<PositionRow>,
    sizes: Seq<Option<SizeReading>>,
    n: nat,
)
    requires
        n < rows.len(),
        n < sizes.len(),
    ensures
        mergeables(rows, sizes, 0).len() == 0,
        ({
            let before = mergeables(rows, sizes, n);
            let after = mergeables(rows, sizes, n + 1);
            let row = rows[n as int];
            let picked = row.condition_id is Some && sizes[n as int] is Some
                && sizes[n as int]->0.sign != SizeSign::NotPositive;
            &&& !picked ==> after == before
            &&& picked ==> {
                &&& after.len() == before.len() + 1
                &&& forall|i: int| 0 <= i < before.len() ==> #[trigger] after[i] == before[i]
                &&& after.last().size == sizes[n as int]->0.micros
                &&& "0x"@.is_prefix_of(row.condition_id->0@) ==> after.last().condition_id
                    == row.condition_id->0@
                &&& !"0x"@.is_prefix_of(row.condition_id->0@) ==> after.last().condition_id
                    == "0x"@ + row.condition_id->0@
            }
        }),
{
}

/// A row of the answer is read by its keys: the size as it stands there, the
/// condition and the title where they are texts.
pub proof fn a_row_is_read_by_its_keys(members: Map<Seq<char>, FieldView>)
    ensures
        ({
            let row = position_row(members);
            let missing = |key: Seq<char>| !members.contains_key(key);
            &&& missing("size"@) ==> row.size is Missing
            &&& !missing("size"@) ==> row.size == members["size"@]
            &&& row.condition_id is Some == (!missing("conditionId"@)
                && members["conditionId"@] is Text)
            &&& row.condition_id is Some ==> members["conditionId"@] == FieldView::Text(
                row.condition_id->0,
            )
            &&& row.title is Some == (!missing("title"@) && members["title"@] is Text)
            &&& row.title is Some ==> members["title"@] == FieldView::Text(row.title->0)
        }),
{
}

} // verus!
