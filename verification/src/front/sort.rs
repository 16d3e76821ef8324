//! The order in which search results are shown.
//!
//! A click on a column's header sorts by that column; a second click on the
//! same header turns the direction round. Results that a column does not
//! tell apart stay in the order in which they came.

use vstd::prelude::*;
use crate::catalog::{i64_or_zero, usize_or_zero, Torrent};

verus! {

/// A column of the table of search results.
#[derive(Clone, Copy, Debug, PartialEq, Eq, Structural)]
pub enum SortColumn {
    Name,
    Date,
    Seeders,
    Leechers,
    Size,
    Uploader,
}

impl SortColumn {
    /// The text of the column's header.
    pub open spec fn title_text(self) -> Seq<char> {
        match self {
            SortColumn::Name => "Name"@,
            SortColumn::Date => "Date Added"@,
            SortColumn::Seeders => "Seeders"@,
            SortColumn::Leechers => "Leechers"@,
            SortColumn::Size => "Size"@,
            SortColumn::Uploader => "Uploader"@,
        }
    }

    /// The text of the column's header.
    pub fn title(&self) -> (r: &'static str)
        ensures
            r@ == self.title_text(),
    {
        match self {
            SortColumn::Name => "Name",
            SortColumn::Date => "Date Added",
            SortColumn::Seeders => "Seeders",
            SortColumn::Leechers => "Leechers",
            SortColumn::Size => "Size",
            SortColumn::Uploader => "Uploader",
        }
    }
}

/// The direction of a sort.
#[derive(Clone, Copy, Debug, PartialEq, Eq, Structural)]
pub enum Direction {
    Descending,
    Ascending,
}

impl Default for Direction {
    fn default() -> (r: Self)
        ensures
            r == Direction::Descending,
    {
        Direction::Descending
    }
}

impl Direction {
    /// The other direction.
    pub open spec fn turned(self) -> Direction {
        match self {
            Direction::Descending => Direction::Ascending,
            Direction::Ascending => Direction::Descending,
        }
    }
}

/// By which column the results are sorted, if by any, and in which direction.
#[derive(Clone, Copy, Debug, PartialEq, Eq, Structural)]
pub struct Sort {
    pub column: Option<SortColumn>,
    pub direction: Direction,
}

impl Default for Sort {
    fn default() -> (r: Self)
        ensures
            r == (Sort { column: None, direction: Direction::Descending }),
    {
        Sort { column: None, direction: Direction::Descending }
    }
}

impl Sort {
    /// The sort after a click on a column's header: by that column, in the
    /// direction as it was, or turned round if the column was the same.
    pub open spec fn clicked(self, column: SortColumn) -> Sort {
        Sort {
            column: Some(column),
            direction: if self.column == Some(column) {
                self.direction.turned()
            } else {
                self.direction
            },
        }
    }

    /// The direction that the header of a column shows: that of the sort
    /// where the results are sorted by the column, and none elsewhere.
    pub fn marker(&self, column: SortColumn) -> (r: Option<Direction>)
        ensures
            r == if self.column == Some(column) {
                Some(self.direction)
            } else {
                None
            },
    {
        match self.column {
            Some(current) => {
                if current == column {
                    Some(self.direction)
                } else {
                    None
                }
            },
            None => None,
        }
    }

    /// Takes a click on a column's header.
    pub fn click(&self, column: SortColumn) -> (r: Sort)
        ensures
            r == self.clicked(column),
    {
        let same = match self.column {
            Some(current) => current == column,
            None => false,
        };
        let direction = if same {
            match self.direction {
                Direction::Descending => Direction::Ascending,
                Direction::Ascending => Direction::Descending,
            }
        } else {
            self.direction
        };
        Sort { column: Some(column), direction }
    }
}

/// Two clicks on the same header give the direction that was there before.
pub proof fn lemma_two_clicks_restore_direction(sort: Sort, column: SortColumn)
    ensures
        sort.clicked(column).clicked(column).direction == sort.clicked(column).direction.turned(),
        sort.column == Some(column) ==> sort.clicked(column).clicked(column) == sort,
{
}

/// How one value stands to another.
#[derive(Clone, Copy, Debug, PartialEq, Eq, Structural)]
pub enum Rank {
    Less,
    Equal,
    Greater,
}

impl Rank {
    /// The rank seen from the other side.
    pub open spec fn reversed(self) -> Rank {
        match self {
            Rank::Less => Rank::Greater,
            Rank::Equal => Rank::Equal,
            Rank::Greater => Rank::Less,
        }
    }
}

/// How one number stands to another.
pub open spec fn int_rank(a: int, b: int) -> Rank {
    if a < b {
        Rank::Less
    } else if a > b {
        Rank::Greater
    } else {
        Rank::Equal
    }
}

/// How one text stands to another from position `i` on: the first
/// character in which they differ decides, and a text that ends comes
/// before one that goes on.
pub open spec fn text_rank_from(a: Seq<char>, b: Seq<char>, i: int) -> Rank
    decreases a.len() - i,
{
    if i < 0 {
        Rank::Equal
    } else if i >= a.len() {
        if i >= b.len() {
            Rank::Equal
        } else {
            Rank::Less
        }
    } else if i >= b.len() {
        Rank::Greater
    } else if (a[i] as u32) < (b[i] as u32) {
        Rank::Less
    } else if (a[i] as u32) > (b[i] as u32) {
        Rank::Greater
    } else {
        text_rank_from(a, b, i + 1)
    }
}

/// How one text stands to another.
pub open spec fn text_rank(a: Seq<char>, b: Seq<char>) -> Rank {
    text_rank_from(a, b, 0)
}

/// What of a search result the sort looks at.
pub struct SortKeys {
    pub name: Seq<char>,
    pub added: i64,
    pub seeders: i64,
    pub leechers: i64,
    pub size: usize,
    pub username: Seq<char>,
}

/// What of a search result the sort looks at. A number that the service
/// sent as a text that is none counts as zero.
pub open spec fn keys(t: Torrent) -> SortKeys {
    SortKeys {
        name: t.name@,
        added: i64_or_zero(t.added@),
        seeders: i64_or_zero(t.seeders@),
        leechers: i64_or_zero(t.leechers@),
        size: usize_or_zero(t.size@),
        username: t.username@,
    }
}

/// What the sort looks at in each of the results.
pub open spec fn all_keys(torrents: Seq<Torrent>) -> Seq<SortKeys> {
    Seq::new(torrents.len(), |i: int| keys(torrents[i]))
}

/// How one result stands to another in a column.
pub open spec fn column_rank(a: SortKeys, b: SortKeys, column: SortColumn) -> Rank {
    match column {
        SortColumn::Name => text_rank(a.name, b.name),
        SortColumn::Date => int_rank(a.added as int, b.added as int),
        SortColumn::Seeders => int_rank(a.seeders as int, b.seeders as int),
        SortColumn::Leechers => int_rank(a.leechers as int, b.leechers as int),
        SortColumn::Size => int_rank(a.size as int, b.size as int),
        SortColumn::Uploader => text_rank(a.username, b.username),
    }
}

/// How one result stands to another in a sort: as in the column when the
/// sort ascends, and the other way round when it descends.
pub open spec fn sort_rank(a: SortKeys, b: SortKeys, column: SortColumn, direction: Direction) -> Rank {
    match direction {
        Direction::Ascending => column_rank(a, b, column),
        Direction::Descending => column_rank(a, b, column).reversed(),
    }
}

/// The order shows every result once: it names each position of the list
/// of results, and none twice.
pub open spec fn shows_each_once(order: Seq<usize>, count: nat) -> bool {
    &&& order.len() == count
    &&& forall|p: int| 0 <= p < order.len() ==> (#[trigger] order[p]) < count
    &&& forall|p: int, q: int| 0 <= p < q < order.len() ==> #[trigger] order[p] != #[trigger] order[q]
}

/// The order is sorted, and results that the sort does not tell apart
/// stand as they came.
pub open spec fn sorted_stably(
    items: Seq<SortKeys>,
    order: Seq<usize>,
    column: SortColumn,
    direction: Direction,
) -> bool {
    forall|p: int, q: int|
        0 <= p < q < order.len() ==> {
            let r = sort_rank(
                items[(#[trigger] order[p]) as int],
                items[(#[trigger] order[q]) as int],
                column,
                direction,
            );
            r != Rank::Greater && (r == Rank::Equal ==> order[p] < order[q])
        }
}

/// Seen from the other side, a text stands the other way round.
pub proof fn lemma_text_rank_reversed(a: Seq<char>, b: Seq<char>, i: int)
    requires
        0 <= i,
    ensures
        text_rank_from(b, a, i) == text_rank_from(a, b, i).reversed(),
    decreases a.len() - i,
{
    if i < a.len() && i < b.len() && (a[i] as u32) == (b[i] as u32) {
        lemma_text_rank_reversed(a, b, i + 1);
    }
}

/// A text that does not come after a second, which does not come after a
/// third, does not come after the third.
pub proof fn lemma_text_rank_transitive(a: Seq<char>, b: Seq<char>, c: Seq<char>, i: int)
    requires
        0 <= i,
        text_rank_from(a, b, i) != Rank::Greater,
        text_rank_from(b, c, i) != Rank::Greater,
    ensures
        text_rank_from(a, c, i) != Rank::Greater,
    decreases a.len() - i,
{
    if i < a.len() && i < b.len() && i < c.len() && (a[i] as u32) == (b[i] as u32) && (b[i] as u32)
        == (c[i] as u32) {
        lemma_text_rank_transitive(a, b, c, i + 1);
    }
}

/// Seen from the other side, a result stands the other way round.
pub proof fn lemma_sort_rank_reversed(
    a: SortKeys,
    b: SortKeys,
    column: SortColumn,
    direction: Direction,
)
    ensures
        sort_rank(b, a, column, direction) == sort_rank(a, b, column, direction).reversed(),
{
    lemma_text_rank_reversed(a.name, b.name, 0);
    lemma_text_rank_reversed(a.username, b.username, 0);
}

/// A result that does not come after a second, which does not come after a
/// third, does not come after the third.
pub proof fn lemma_sort_rank_transitive(
    a: SortKeys,
    b: SortKeys,
    c: SortKeys,
    column: SortColumn,
    direction: Direction,
)
    requires
        sort_rank(a, b, column, direction) != Rank::Greater,
        sort_rank(b, c, column, direction) != Rank::Greater,
    ensures
        sort_rank(a, c, column, direction) != Rank::Greater,
{
    match direction {
        Direction::Ascending => {
            if column == SortColumn::Name {
                lemma_text_rank_transitive(a.name, b.name, c.name, 0);
            }
            if column == SortColumn::Uploader {
                lemma_text_rank_transitive(a.username, b.username, c.username, 0);
            }
        },
        Direction::Descending => {
            lemma_text_rank_reversed(a.name, b.name, 0);
            lemma_text_rank_reversed(b.name, c.name, 0);
            lemma_text_rank_reversed(a.name, c.name, 0);
            lemma_text_rank_reversed(a.username, b.username, 0);
            lemma_text_rank_reversed(b.username, c.username, 0);
            lemma_text_rank_reversed(a.username, c.username, 0);
            if column == SortColumn::Name {
                lemma_text_rank_transitive(c.name, b.name, a.name, 0);
            }
            if column == SortColumn::Uploader {
                lemma_text_rank_transitive(c.username, b.username, a.username, 0);
            }
        },
    }
}

/// Tells how one number stands to another.
fn rank_i64(a: i64, b: i64) -> (r: Rank)
    ensures
        r == int_rank(a as int, b as int),
{
    if a < b {
        Rank::Less
    } else if a > b {
        Rank::Greater
    } else {
        Rank::Equal
    }
}

/// Tells how one size stands to another.
fn rank_usize(a: usize, b: usize) -> (r: Rank)
    ensures
        r == int_rank(a as int, b as int),
{
    if a < b {
        Rank::Less
    } else if a > b {
        Rank::Greater
    } else {
        Rank::Equal
    }
}

/// Tells how one text stands to another.
pub fn rank_text(a: &str, b: &str) -> (r: Rank)
    ensures
        r == text_rank(a@, b@),
{
    let n: usize = a.unicode_len();
    let m: usize = b.unicode_len();
    let mut i: usize = 0;
    while i < n && i < m
        invariant
            n == a@.len(),
            m == b@.len(),
            i <= n,
            i <= m,
            text_rank(a@, b@) == text_rank_from(a@, b@, i as int),
        decreases n - i,
    {
        let x = a.get_char(i) as u32;
        let y = b.get_char(i) as u32;
        if x < y {
            return Rank::Less;
        }
        if x > y {
            return Rank::Greater;
        }
        i += 1;
    }
    if i < n {
        Rank::Greater
    } else if i < m {
        Rank::Less
    } else {
        Rank::Equal
    }
}

/// Tells how one result stands to another in a sort.
pub fn rank(a: &Torrent, b: &Torrent, column: SortColumn, direction: Direction) -> (r: Rank)
    ensures
        r == sort_rank(keys(*a), keys(*b), column, direction),
{
    let r = match column {
        SortColumn::Name => rank_text(a.name.as_str(), b.name.as_str()),
        SortColumn::Date => rank_i64(a.added_i64(), b.added_i64()),
        SortColumn::Seeders => rank_i64(a.seeders_i64(), b.seeders_i64()),
        SortColumn::Leechers => rank_i64(a.leechers_i64(), b.leechers_i64()),
        SortColumn::Size => rank_usize(a.size_bytes(), b.size_bytes()),
        SortColumn::Uploader => rank_text(a.username.as_str(), b.username.as_str()),
    };
    match direction {
        Direction::Ascending => r,
        Direction::Descending => match r {
            Rank::Less => Rank::Greater,
            Rank::Equal => Rank::Equal,
            Rank::Greater => Rank::Less,
        },
    }
}

/// Whether the result at `left` has to stand behind the one at `right`.
fn stands_behind(
    torrents: &Vec<Torrent>,
    left: usize,
    right: usize,
    column: SortColumn,
    direction: Direction,
) -> (r: bool)
    requires
        left < torrents.len(),
        right < torrents.len(),
    ensures
        r == (sort_rank(
            all_keys(torrents@)[left as int],
            all_keys(torrents@)[right as int],
            column,
            direction,
        ) == Rank::Greater),
{
    match rank(&torrents[left], &torrents[right], column, direction) {
        Rank::Greater => true,
        _ => false,
    }
}

/// Works out the order in which to show the results: the positions of the
/// results in the list, sorted by the column in the direction, with results
/// that the column does not tell apart in the order of the list.
pub fn sorted_order(torrents: &Vec<Torrent>, column: SortColumn, direction: Direction) -> (r: Vec<
    usize,
>)
    ensures
        shows_each_once(r@, torrents@.len()),
        sorted_stably(all_keys(torrents@), r@, column, direction),
{
    let n: usize = torrents.len();
    let ghost items = all_keys(torrents@);
    let mut order: Vec<usize> = Vec::new();
    let mut k: usize = 0;
    while k < n
        invariant
            n == torrents.len(),
            k <= n,
            items == all_keys(torrents@),
            shows_each_once(order@, k as nat),
            sorted_stably(items, order@, column, direction),
        decreases n - k,
    {
        let ghost prev = order@;
        order.push(k);
        let mut p: usize = k;
        let mut moving: bool = false;
        if p > 0 {
            moving = stands_behind(torrents, order[p - 1], k, column, direction);
        }
        while moving
            invariant
                n == torrents.len(),
                k < n,
                items == all_keys(torrents@),
                order@.len() == k + 1,
                p <= k,
                order@[p as int] == k,
                shows_each_once(prev, k as nat),
                sorted_stably(items, prev, column, direction),
                forall|i: int| 0 <= i < p ==> #[trigger] order@[i] == prev[i],
                forall|i: int| p < i <= k ==> #[trigger] order@[i] == prev[i - 1],
                forall|i: int|
                    p <= i < k ==> sort_rank(
                        items[(#[trigger] prev[i]) as int],
                        items[k as int],
                        column,
                        direction,
                    ) == Rank::Greater,
                moving ==> p > 0 && sort_rank(
                    items[prev[p - 1] as int],
                    items[k as int],
                    column,
                    direction,
                ) == Rank::Greater,
                !moving ==> p == 0 || sort_rank(
                    items[prev[p - 1] as int],
                    items[k as int],
                    column,
                    direction,
                ) != Rank::Greater,
            decreases p,
        {
            let before = order[p - 1];
            order.set(p, before);
            order.set(p - 1, k);
            p -= 1;
            moving = false;
            if p > 0 {
                moving = stands_behind(torrents, order[p - 1], k, column, direction);
            }
        }
        proof {
            let now = order@;
            assert forall|a: int, b: int| 0 <= a < b < now.len() implies ({
                let r = sort_rank(
                    items[(#[trigger] now[a]) as int],
                    items[(#[trigger] now[b]) as int],
                    column,
                    direction,
                );
                r != Rank::Greater && (r == Rank::Equal ==> now[a] < now[b])
            }) by {
                if a == p {
                    lemma_sort_rank_reversed(
                        items[prev[b - 1] as int],
                        items[k as int],
                        column,
                        direction,
                    );
                } else if b == p && a < p - 1 {
                    lemma_sort_rank_transitive(
                        items[prev[a] as int],
                        items[prev[p - 1] as int],
                        items[k as int],
                        column,
                        direction,
                    );
                }
            }
        }
        k += 1;
    }
    order
}

} // verus!
