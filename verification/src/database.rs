//! The durable local state of the terminal: the stored credentials, the
//! catalog mirror (members and articles) and the sale ledger, all as one
//! [`Database`] value of plain fields.
//!
//! The catalog is replaced wholesale on every successful refresh; within an
//! incoming batch, rows that repeat an earlier key are skipped, so that one
//! duplicate never blocks the rest of the batch.  The ledger is an outbox:
//! sales are appended in checkout order and deleted one by one, only after
//! the remote service has acknowledged that very sale.

use vstd::prelude::*;

use crate::dates::Date;
use crate::decimal::Decimal;
use crate::digits;
use crate::vereinsflieger;

verus! {

// ---------------------------------------------------------------------------
// Credentials
// ---------------------------------------------------------------------------

/// The credentials used to access the remote service, as stored locally.
pub struct Credentials {
    /// The club id at the remote service.
    pub club_id: u32,
    /// The application key used to access the remote interface.
    pub app_key: String,
    /// The username or email address of the account.
    pub username: String,
    /// The password of the account.
    pub password: String,
}

/// Mathematical image of [`Credentials`].
pub ghost struct CredentialsV {
    pub club_id: u32,
    pub app_key: Seq<char>,
    pub username: Seq<char>,
    pub password: Seq<char>,
}

impl View for Credentials {
    type V = CredentialsV;

    open spec fn view(&self) -> CredentialsV {
        CredentialsV {
            club_id: self.club_id,
            app_key: self.app_key@,
            username: self.username@,
            password: self.password@,
        }
    }
}

impl DeepView for Credentials {
    type V = CredentialsV;

    open spec fn deep_view(&self) -> CredentialsV {
        self.view()
    }
}

impl Clone for Credentials {
    fn clone(&self) -> (r: Credentials)
        ensures
            r == *self,
    {
        Credentials {
            club_id: self.club_id,
            app_key: self.app_key.clone(),
            username: self.username.clone(),
            password: self.password.clone(),
        }
    }
}

impl Credentials {
    /// Look up the stored credentials, if any.
    pub fn find_first(db: &Database) -> (r: Option<Credentials>)
        ensures
            r == db.credentials,
    {
        match &db.credentials {
            Some(c) => Some(c.clone()),
            None => None,
        }
    }

    /// Store these credentials; the terminal keeps at most one set.
    pub fn insert(&self, db: &mut Database)
        ensures
            final(db).credentials == Some(*self),
            final(db).members == old(db).members,
            final(db).articles == old(db).articles,
            final(db).sales == old(db).sales,
    {
        db.credentials = Some(self.clone());
    }
}

// ---------------------------------------------------------------------------
// Members
// ---------------------------------------------------------------------------

/// A member of the club.
///
/// The catalog keys members by keycode, so a member with several keycodes
/// appears once per keycode; rows sharing a member id are the same person.
pub struct Member {
    /// The member's RFID keycode, normalized to ten decimal digits.
    pub keycode: String,
    /// The member id inside the club.
    pub id: String,
    pub firstname: String,
    pub lastname: String,
    /// Optional display override; empty when unset.
    pub nickname: String,
}

/// Mathematical image of [`Member`].
pub ghost struct MemberV {
    pub keycode: Seq<char>,
    pub id: Seq<char>,
    pub firstname: Seq<char>,
    pub lastname: Seq<char>,
    pub nickname: Seq<char>,
}

impl View for Member {
    type V = MemberV;

    open spec fn view(&self) -> MemberV {
        MemberV {
            keycode: self.keycode@,
            id: self.id@,
            firstname: self.firstname@,
            lastname: self.lastname@,
            nickname: self.nickname@,
        }
    }
}

impl DeepView for Member {
    type V = MemberV;

    open spec fn deep_view(&self) -> MemberV {
        self.view()
    }
}

impl Clone for Member {
    fn clone(&self) -> (r: Member)
        ensures
            r == *self,
    {
        Member {
            keycode: self.keycode.clone(),
            id: self.id.clone(),
            firstname: self.firstname.clone(),
            lastname: self.lastname.clone(),
            nickname: self.nickname.clone(),
        }
    }
}

/// The first member row carrying the keycode `k`, if any.
pub open spec fn spec_find_member(s: Seq<MemberV>, k: Seq<char>) -> Option<MemberV>
    decreases s.len(),
{
    if s.len() == 0 {
        None
    } else if s[0].keycode == k {
        Some(s[0])
    } else {
        spec_find_member(s.skip(1), k)
    }
}

/// If `s[i]` is the first row carrying `k`, the lookup returns it.
proof fn lemma_find_member_hit(s: Seq<MemberV>, k: Seq<char>, i: int)
    requires
        0 <= i < s.len(),
        s[i].keycode == k,
        forall|j: int| 0 <= j < i ==> s[j].keycode != k,
    ensures
        spec_find_member(s, k) == Some(s[i]),
    decreases i,
{
    if i > 0 {
        lemma_find_member_hit(s.skip(1), k, i - 1);
    }
}

/// If no row carries `k`, the lookup returns nothing.
proof fn lemma_find_member_none(s: Seq<MemberV>, k: Seq<char>)
    requires
        forall|j: int| 0 <= j < s.len() ==> s[j].keycode != k,
    ensures
        spec_find_member(s, k) is None,
    decreases s.len(),
{
    if s.len() > 0 {
        lemma_find_member_none(s.skip(1), k);
    }
}

/// Some member in `s` already carries the keycode `k`.
pub open spec fn keycode_taken(s: Seq<MemberV>, k: Seq<char>) -> bool {
    exists|i: int| 0 <= i < s.len() && #[trigger] s[i].keycode == k
}

/// The members that survive a wholesale replacement: rows are kept in
/// order, but a row whose keycode already appeared is skipped.
pub open spec fn dedup_members(s: Seq<MemberV>) -> Seq<MemberV>
    decreases s.len(),
{
    if s.len() == 0 {
        Seq::empty()
    } else {
        let rest = dedup_members(s.drop_last());
        if keycode_taken(rest, s.last().keycode) {
            rest
        } else {
            rest.push(s.last())
        }
    }
}

/// The effect of `Member::save_all` on the database: the member rows are
/// exactly the deduplicated input, everything else is untouched.
pub open spec fn members_replaced(pre: DatabaseV, post: DatabaseV, members: Seq<MemberV>) -> bool {
    post == (DatabaseV { members: dedup_members(members), ..pre })
}

/// Replaying a wholesale member replacement with the same input leaves the
/// catalog in the same observable state as running it once.
pub proof fn lemma_replace_members_idempotent(
    d0: DatabaseV,
    d1: DatabaseV,
    d2: DatabaseV,
    members: Seq<MemberV>,
)
    requires
        members_replaced(d0, d1, members),
        members_replaced(d1, d2, members),
    ensures
        d2 == d1,
{
}

/// Decide whether some member of `v` carries the keycode `k`.
fn member_keycode_present(v: &Vec<Member>, k: &String) -> (r: bool)
    ensures
        r == keycode_taken(v.deep_view(), k@),
{
    let mut i: usize = 0;
    while i < v.len()
        invariant
            0 <= i <= v@.len(),
            forall|j: int| 0 <= j < i ==> v.deep_view()[j].keycode != k@,
        decreases v@.len() - i,
    {
        if v[i].keycode == *k {
            proof {
                assert(v.deep_view()[i as int].keycode == k@);
            }
            return true;
        }
        i = i + 1;
    }
    false
}

impl Member {
    /// Parse a raw keycode into the normalized ten-digit decimal format.
    ///
    /// A ten-digit decimal code is kept as it is; a seven-character
    /// hexadecimal code is reinterpreted as the decimal rendering of its
    /// value, zero-padded to ten digits; anything else is rejected.
    pub fn parse_keycode(key: vereinsflieger::Key) -> (r: Option<String>)
        ensures
            r matches Some(s) ==> normalize_keycode(key.name@) == Some(s@),
            r is None ==> normalize_keycode(key.name@) is None,
    {
        let name = key.name;
        let n = name.as_str().unicode_len();
        if n == 10 && digits::str_all_dec_digits(name.as_str()) {
            Some(name)
        } else if n == 7 && digits::str_all_hex_digits(name.as_str()) {
            let value = digits::hex_str_to_u32(name.as_str());
            Some(digits::to_padded10_string(value))
        } else {
            None
        }
    }

    /// Find a member by keycode: the first row carrying it, if any.
    pub fn find_by_keycode(db: &Database, keycode: &String) -> (r: Option<Member>)
        ensures
            r matches Some(m) ==> spec_find_member(db@.members, keycode@) == Some(m@),
            r is None ==> spec_find_member(db@.members, keycode@) is None,
    {
        let mut i: usize = 0;
        while i < db.members.len()
            invariant
                0 <= i <= db@.members.len(),
                forall|j: int| 0 <= j < i ==> db@.members[j].keycode != keycode@,
            decreases db@.members.len() - i,
        {
            if db.members[i].keycode == *keycode {
                let found = db.members[i].clone();
                proof {
                    assert(db@.members[i as int] == found@);
                    lemma_find_member_hit(db@.members, keycode@, i as int);
                }
                return Some(found);
            }
            i = i + 1;
        }
        proof {
            lemma_find_member_none(db@.members, keycode@);
        }
        None
    }

    /// Replace all member rows with (the deduplication of) `members`,
    /// leaving articles, sales and credentials untouched.
    pub fn save_all(db: &mut Database, members: Vec<Member>)
        ensures
            members_replaced(old(db)@, final(db)@, members.deep_view()),
    {
        let ghost dv = members.deep_view();
        let mut kept: Vec<Member> = Vec::new();
        let mut i: usize = 0;
        proof {
            assert(dv.subrange(0, 0) =~= Seq::<MemberV>::empty());
            assert(kept.deep_view() =~= Seq::<MemberV>::empty());
        }
        while i < members.len()
            invariant
                0 <= i <= members@.len(),
                dv == members.deep_view(),
                dv.len() == members@.len(),
                kept.deep_view() == dedup_members(dv.subrange(0, i as int)),
            decreases members@.len() - i,
        {
            let present = member_keycode_present(&kept, &members[i].keycode);
            proof {
                let pre = dv.subrange(0, i as int);
                let cur = dv.subrange(0, i as int + 1);
                assert(cur.drop_last() =~= pre);
                assert(cur.last() == dv[i as int]);
            }
            if !present {
                let m = members[i].clone();
                kept.push(m);
                proof {
                    assert(kept.deep_view() =~= dedup_members(dv.subrange(0, i as int)).push(
                        dv[i as int],
                    ));
                }
            }
            i = i + 1;
        }
        proof {
            assert(dv.subrange(0, members@.len() as int) =~= dv);
        }
        db.members = kept;
    }
}

/// Whether a keycode is acceptable, and its normalized form: ten decimal
/// digits stay as they are, seven hexadecimal digits become the zero-padded
/// decimal rendering of their value, everything else is rejected.
pub open spec fn normalize_keycode(s: Seq<char>) -> Option<Seq<char>> {
    if s.len() == 10 && digits::all_dec_digits(s) {
        Some(s)
    } else if s.len() == 7 && digits::all_hex_digits(s) {
        Some(digits::zero_pad10(digits::dec_string(digits::hex_value(s))))
    } else {
        None
    }
}

/// Keycode normalization, characterized.  A ten-digit decimal token
/// normalizes to itself; a seven-character hexadecimal token normalizes to
/// a ten-digit decimal token denoting the same number, zero-padded; every
/// other token is rejected.
pub proof fn lemma_normalize_keycode(s: Seq<char>)
    ensures
        s.len() == 10 && digits::all_dec_digits(s) ==> normalize_keycode(s) == Some(s),
        s.len() == 7 && digits::all_hex_digits(s) ==> {
            &&& normalize_keycode(s) is Some
            &&& normalize_keycode(s).unwrap().len() == 10
            &&& digits::all_dec_digits(normalize_keycode(s).unwrap())
            &&& digits::dec_value(normalize_keycode(s).unwrap()) == digits::hex_value(s)
        },
        !(s.len() == 10 && digits::all_dec_digits(s)) && !(s.len() == 7
            && digits::all_hex_digits(s)) ==> normalize_keycode(s) is None,
{
    if s.len() == 7 && digits::all_hex_digits(s) {
        let v = digits::hex_value(s);
        let ds = digits::dec_string(v);
        digits::lemma_hex_value_bound(s);
        assert(digits::pow16(7) == 0x10000000) by {
            reveal_with_fuel(digits::pow16, 8);
        }
        assert(digits::pow10(9) == 1000000000) by {
            reveal_with_fuel(digits::pow10, 10);
        }
        digits::lemma_dec_string_len(v, 9);
        digits::lemma_dec_string_digits(v);
        digits::lemma_dec_string_value(v);
        let zeros = Seq::new((10 - ds.len()) as nat, |i: int| '0');
        let padded = digits::zero_pad10(ds);
        assert(padded == zeros + ds);
        assert(padded.len() == 10);
        digits::lemma_dec_value_zero_prefix(zeros, ds);
        assert(digits::all_dec_digits(padded)) by {
            assert(forall|i: int|
                0 <= i < padded.len() ==> #[trigger] padded[i] == (if i < zeros.len() {
                    '0'
                } else {
                    ds[i - zeros.len()]
                }));
            assert(digits::is_dec_digit('0'));
        }
    }
}

// ---------------------------------------------------------------------------
// Articles and prices
// ---------------------------------------------------------------------------

/// A price of an article, valid within an inclusive date range.
#[derive(Clone, Copy, PartialEq, Eq, Structural, Debug)]
pub struct Price {
    /// First day (inclusive) on which the price holds.
    pub valid_from: Date,
    /// Last day (inclusive) on which the price holds.
    pub valid_to: Date,
    /// The unit price.
    pub unit_price: Decimal,
}

/// The date `d` lies within the inclusive validity range of `p`.
pub open spec fn price_covers(p: Price, d: Date) -> bool {
    p.valid_from.spec_le(d) && d.spec_le(p.valid_to)
}

impl Price {
    /// Convert a raw price row; all three strings must parse.
    pub fn try_from(raw: &vereinsflieger::Price) -> (r: Option<Price>)
        ensures
            r == spec_price_of_raw(*raw),
    {
        let valid_from = crate::dates::parse_date(raw.valid_from.as_str());
        let valid_to = crate::dates::parse_date(raw.valid_to.as_str());
        let unit_price = crate::decimal::parse_decimal(raw.unit_price.as_str());
        match (valid_from, valid_to, unit_price) {
            (Some(f), Some(t), Some(p)) => Some(
                Price { valid_from: f, valid_to: t, unit_price: p },
            ),
            _ => None,
        }
    }
}

/// What converting a raw price row yields: a price exactly when all three
/// of its strings parse.
pub open spec fn spec_price_of_raw(raw: vereinsflieger::Price) -> Option<Price> {
    match (
        crate::dates::date_of_str(raw.valid_from@),
        crate::dates::date_of_str(raw.valid_to@),
        crate::decimal::decimal_of_str(raw.unit_price@),
    ) {
        (Some(f), Some(t), Some(p)) => Some(Price { valid_from: f, valid_to: t, unit_price: p }),
        _ => None,
    }
}

/// An article of the catalog.  The article id doubles as its scan barcode.
pub struct Article {
    /// The article id.
    pub id: String,
    /// The display name of the article.
    pub designation: String,
    /// Date-ranged unit prices; by convention the ranges do not overlap,
    /// though nothing enforces that structurally.
    pub prices: Vec<Price>,
}

/// Mathematical image of [`Article`].
pub ghost struct ArticleV {
    pub id: Seq<char>,
    pub designation: Seq<char>,
    pub prices: Seq<Price>,
}

impl View for Article {
    type V = ArticleV;

    open spec fn view(&self) -> ArticleV {
        ArticleV { id: self.id@, designation: self.designation@, prices: self.prices@ }
    }
}

impl DeepView for Article {
    type V = ArticleV;

    open spec fn deep_view(&self) -> ArticleV {
        self.view()
    }
}

impl Clone for Article {
    fn clone(&self) -> (r: Article)
        ensures
            r@ == self@,
    {
        let mut prices: Vec<Price> = Vec::new();
        let mut i: usize = 0;
        while i < self.prices.len()
            invariant
                0 <= i <= self.prices@.len(),
                prices@ == self.prices@.subrange(0, i as int),
            decreases self.prices@.len() - i,
        {
            prices.push(self.prices[i]);
            proof {
                assert(prices@ =~= self.prices@.subrange(0, i as int + 1));
            }
            i = i + 1;
        }
        proof {
            assert(self.prices@.subrange(0, self.prices@.len() as int) =~= self.prices@);
        }
        Article { id: self.id.clone(), designation: self.designation.clone(), prices }
    }
}

/// What converting a raw article yields: the article with every price row
/// converted, exactly when every price row parses.
pub open spec fn spec_article_of_raw(raw: vereinsflieger::Article) -> Option<ArticleV> {
    if forall|i: int|
        0 <= i < raw.prices@.len() ==> spec_price_of_raw(#[trigger] raw.prices@[i]) is Some {
        Some(
            ArticleV {
                id: raw.article_id@,
                designation: raw.designation@,
                prices: Seq::new(
                    raw.prices@.len(),
                    |i: int| spec_price_of_raw(raw.prices@[i]).unwrap(),
                ),
            },
        )
    } else {
        None
    }
}

/// The first article row carrying the id `k`, if any.
pub open spec fn spec_find_article(s: Seq<ArticleV>, k: Seq<char>) -> Option<ArticleV>
    decreases s.len(),
{
    if s.len() == 0 {
        None
    } else if s[0].id == k {
        Some(s[0])
    } else {
        spec_find_article(s.skip(1), k)
    }
}

/// If `s[i]` is the first row carrying `k`, the lookup returns it.
proof fn lemma_find_article_hit(s: Seq<ArticleV>, k: Seq<char>, i: int)
    requires
        0 <= i < s.len(),
        s[i].id == k,
        forall|j: int| 0 <= j < i ==> s[j].id != k,
    ensures
        spec_find_article(s, k) == Some(s[i]),
    decreases i,
{
    if i > 0 {
        lemma_find_article_hit(s.skip(1), k, i - 1);
    }
}

/// If no row carries `k`, the lookup returns nothing.
proof fn lemma_find_article_none(s: Seq<ArticleV>, k: Seq<char>)
    requires
        forall|j: int| 0 <= j < s.len() ==> s[j].id != k,
    ensures
        spec_find_article(s, k) is None,
    decreases s.len(),
{
    if s.len() > 0 {
        lemma_find_article_none(s.skip(1), k);
    }
}

/// Some article in `s` already carries the id `k`.
pub open spec fn article_id_taken(s: Seq<ArticleV>, k: Seq<char>) -> bool {
    exists|i: int| 0 <= i < s.len() && #[trigger] s[i].id == k
}

/// The articles that survive a wholesale replacement: rows are kept in
/// order, but a row whose id already appeared is skipped.
pub open spec fn dedup_articles(s: Seq<ArticleV>) -> Seq<ArticleV>
    decreases s.len(),
{
    if s.len() == 0 {
        Seq::empty()
    } else {
        let rest = dedup_articles(s.drop_last());
        if article_id_taken(rest, s.last().id) {
            rest
        } else {
            rest.push(s.last())
        }
    }
}

/// The effect of `Article::save_all` on the database.
pub open spec fn articles_replaced(pre: DatabaseV, post: DatabaseV, articles: Seq<ArticleV>) -> bool {
    post == (DatabaseV { articles: dedup_articles(articles), ..pre })
}

/// Replaying a wholesale article replacement with the same input leaves the
/// catalog in the same observable state as running it once.
pub proof fn lemma_replace_articles_idempotent(
    d0: DatabaseV,
    d1: DatabaseV,
    d2: DatabaseV,
    articles: Seq<ArticleV>,
)
    requires
        articles_replaced(d0, d1, articles),
        articles_replaced(d1, d2, articles),
    ensures
        d2 == d1,
{
}

/// Decide whether some article of `v` carries the id `k`.
fn article_id_present(v: &Vec<Article>, k: &String) -> (r: bool)
    ensures
        r == article_id_taken(v.deep_view(), k@),
{
    let mut i: usize = 0;
    while i < v.len()
        invariant
            0 <= i <= v@.len(),
            forall|j: int| 0 <= j < i ==> v.deep_view()[j].id != k@,
        decreases v@.len() - i,
    {
        if v[i].id == *k {
            proof {
                assert(v.deep_view()[i as int].id == k@);
            }
            return true;
        }
        i = i + 1;
    }
    false
}

/// The first price of `prices` whose range contains `d`, if any.
pub open spec fn spec_price_for_date(prices: Seq<Price>, d: Date) -> Option<Decimal>
    decreases prices.len(),
{
    if prices.len() == 0 {
        None
    } else if price_covers(prices[0], d) {
        Some(prices[0].unit_price)
    } else {
        spec_price_for_date(prices.skip(1), d)
    }
}

/// If `prices[i]` is the first range containing `d`, the price lookup
/// returns its unit price.
proof fn lemma_price_for_date_hit(prices: Seq<Price>, d: Date, i: int)
    requires
        0 <= i < prices.len(),
        price_covers(prices[i], d),
        forall|j: int| 0 <= j < i ==> !price_covers(#[trigger] prices[j], d),
    ensures
        spec_price_for_date(prices, d) == Some(prices[i].unit_price),
    decreases i,
{
    if i > 0 {
        lemma_price_for_date_hit(prices.skip(1), d, i - 1);
    }
}

/// If no range contains `d`, the price lookup returns nothing.
proof fn lemma_price_for_date_none(prices: Seq<Price>, d: Date)
    requires
        forall|j: int| 0 <= j < prices.len() ==> !price_covers(#[trigger] prices[j], d),
    ensures
        spec_price_for_date(prices, d) is None,
    decreases prices.len(),
{
    if prices.len() > 0 {
        lemma_price_for_date_none(prices.skip(1), d);
    }
}

/// With a price list whose ranges do not overlap, a query date inside
/// exactly one range yields that range's price — and a date inside no range
/// yields nothing (the article is not sellable that day).
pub proof fn lemma_price_for_date_unique_range(prices: Seq<Price>, d: Date, i: int)
    requires
        0 <= i < prices.len(),
        price_covers(prices[i], d),
        forall|j: int| 0 <= j < prices.len() && j != i ==> !price_covers(#[trigger] prices[j], d),
    ensures
        spec_price_for_date(prices, d) == Some(prices[i].unit_price),
{
    lemma_price_for_date_hit(prices, d, i);
}

impl Article {
    /// Convert a raw article; every price row must parse, and one that does
    /// not rejects the whole article.
    pub fn try_from(raw: vereinsflieger::Article) -> (r: Option<Article>)
        ensures
            r matches Some(a) ==> spec_article_of_raw(raw) == Some(a@),
            r is None ==> spec_article_of_raw(raw) is None,
    {
        let mut prices: Vec<Price> = Vec::new();
        let mut i: usize = 0;
        while i < raw.prices.len()
            invariant
                0 <= i <= raw.prices@.len(),
                forall|j: int|
                    0 <= j < i ==> spec_price_of_raw(#[trigger] raw.prices@[j]) is Some,
                prices@.len() == i,
                forall|j: int|
                    0 <= j < i ==> Some(#[trigger] prices@[j]) == spec_price_of_raw(
                        raw.prices@[j],
                    ),
            decreases raw.prices@.len() - i,
        {
            match Price::try_from(&raw.prices[i]) {
                Some(p) => {
                    prices.push(p);
                },
                None => {
                    proof {
                        assert(spec_price_of_raw(raw.prices@[i as int]) is None);
                    }
                    return None;
                },
            }
            i = i + 1;
        }
        let converted = Article { id: raw.article_id, designation: raw.designation, prices };
        proof {
            let expected = spec_article_of_raw(raw).unwrap();
            assert(converted@.prices =~= expected.prices);
        }
        Some(converted)
    }

    /// Find an article by its barcode (that is, its id): the first row
    /// carrying it, if any.
    pub fn find_by_barcode(db: &Database, barcode: &String) -> (r: Option<Article>)
        ensures
            r matches Some(a) ==> spec_find_article(db@.articles, barcode@) == Some(a@),
            r is None ==> spec_find_article(db@.articles, barcode@) is None,
    {
        let mut i: usize = 0;
        while i < db.articles.len()
            invariant
                0 <= i <= db@.articles.len(),
                forall|j: int| 0 <= j < i ==> db@.articles[j].id != barcode@,
            decreases db@.articles.len() - i,
        {
            if db.articles[i].id == *barcode {
                let found = db.articles[i].clone();
                proof {
                    assert(db@.articles[i as int] == found@);
                    lemma_find_article_hit(db@.articles, barcode@, i as int);
                }
                return Some(found);
            }
            i = i + 1;
        }
        proof {
            lemma_find_article_none(db@.articles, barcode@);
        }
        None
    }

    /// Replace all article rows with (the deduplication of) `articles`,
    /// leaving members, sales and credentials untouched.
    pub fn save_all(db: &mut Database, articles: Vec<Article>)
        ensures
            articles_replaced(old(db)@, final(db)@, articles.deep_view()),
    {
        let ghost dv = articles.deep_view();
        let mut kept: Vec<Article> = Vec::new();
        let mut i: usize = 0;
        proof {
            assert(dv.subrange(0, 0) =~= Seq::<ArticleV>::empty());
            assert(kept.deep_view() =~= Seq::<ArticleV>::empty());
        }
        while i < articles.len()
            invariant
                0 <= i <= articles@.len(),
                dv == articles.deep_view(),
                dv.len() == articles@.len(),
                kept.deep_view() == dedup_articles(dv.subrange(0, i as int)),
            decreases articles@.len() - i,
        {
            let present = article_id_present(&kept, &articles[i].id);
            proof {
                let pre = dv.subrange(0, i as int);
                let cur = dv.subrange(0, i as int + 1);
                assert(cur.drop_last() =~= pre);
                assert(cur.last() == dv[i as int]);
            }
            if !present {
                let a = articles[i].clone();
                kept.push(a);
                proof {
                    assert(kept.deep_view() =~= dedup_articles(dv.subrange(0, i as int)).push(
                        dv[i as int],
                    ));
                }
            }
            i = i + 1;
        }
        proof {
            assert(dv.subrange(0, articles@.len() as int) =~= dv);
        }
        db.articles = kept;
    }

    /// The price of the article on `date`: the first price whose range
    /// contains the date, or nothing if no range does.
    pub fn price_for_date(&self, date: &Date) -> (r: Option<Decimal>)
        ensures
            r == spec_price_for_date(self.prices@, *date),
    {
        let mut i: usize = 0;
        while i < self.prices.len()
            invariant
                0 <= i <= self.prices@.len(),
                forall|j: int| 0 <= j < i ==> !price_covers(#[trigger] self.prices@[j], *date),
            decreases self.prices@.len() - i,
        {
            let p = &self.prices[i];
            if p.valid_from.le(date) && date.le(&p.valid_to) {
                proof {
                    lemma_price_for_date_hit(self.prices@, *date, i as int);
                }
                return Some(p.unit_price);
            }
            i = i + 1;
        }
        proof {
            lemma_price_for_date_none(self.prices@, *date);
        }
        None
    }

    /// The price of the article today, for some valid calendar date taken
    /// from the clock.
    pub fn current_price(&self) -> (r: Option<Decimal>)
        ensures
            exists|d: Date| (#[trigger] d.wf()) && r == spec_price_for_date(self.prices@, d),
    {
        let d = crate::dates::today();
        let r = self.price_for_date(&d);
        proof {
            assert(d.wf() && r == spec_price_for_date(self.prices@, d));
        }
        r
    }
}

// ---------------------------------------------------------------------------
// The sale ledger
// ---------------------------------------------------------------------------

/// A completed sale, waiting in the outbox until the remote service
/// acknowledges it.  Once appended it is immutable; it leaves the ledger
/// only through [`Sale::delete_by_id`] after its own acknowledgment.
pub struct Sale {
    /// Unique identifier of the sale.
    pub id: u128,
    /// The day of the checkout.
    pub date: Date,
    /// The member id of the buyer.
    pub member_id: String,
    /// The article id of the sold article.
    pub article_id: String,
    /// How many units were sold.
    pub amount: u32,
}

/// Mathematical image of [`Sale`].
pub ghost struct SaleV {
    pub id: u128,
    pub date: Date,
    pub member_id: Seq<char>,
    pub article_id: Seq<char>,
    pub amount: u32,
}

impl View for Sale {
    type V = SaleV;

    open spec fn view(&self) -> SaleV {
        SaleV {
            id: self.id,
            date: self.date,
            member_id: self.member_id@,
            article_id: self.article_id@,
            amount: self.amount,
        }
    }
}

impl DeepView for Sale {
    type V = SaleV;

    open spec fn deep_view(&self) -> SaleV {
        self.view()
    }
}

impl Clone for Sale {
    fn clone(&self) -> (r: Sale)
        ensures
            r == *self,
    {
        Sale {
            id: self.id,
            date: self.date,
            member_id: self.member_id.clone(),
            article_id: self.article_id.clone(),
            amount: self.amount,
        }
    }
}

/// The ledger `s` with every sale carrying `id` removed, order kept.
pub open spec fn sales_without(s: Seq<SaleV>, id: u128) -> Seq<SaleV> {
    s.filter(|x: SaleV| x.id != id)
}

/// The effect of `Sale::insert_all` on the database: the batch is appended
/// to the ledger in order, everything else is untouched.
pub open spec fn sales_appended(pre: DatabaseV, post: DatabaseV, batch: Seq<SaleV>) -> bool {
    post == (DatabaseV { sales: pre.sales + batch, ..pre })
}

/// No sale is lost by a checkout: after a successful batch append, every
/// line item of the batch is recoverable from the ledger, behind the sales
/// that were already pending, in batch order.
pub proof fn lemma_append_batch_no_loss(pre: DatabaseV, post: DatabaseV, batch: Seq<SaleV>)
    requires
        sales_appended(pre, post, batch),
    ensures
        post.sales.len() == pre.sales.len() + batch.len(),
        forall|i: int| 0 <= i < pre.sales.len() ==> post.sales[i] == pre.sales[i],
        forall|i: int| 0 <= i < batch.len() ==> post.sales[pre.sales.len() + i] == batch[i],
{
}

impl Sale {
    /// All pending sales, in ledger (checkout) order.
    pub fn load_all(db: &Database) -> (r: Vec<Sale>)
        ensures
            r@ == db.sales@,
            r.deep_view() == db@.sales,
    {
        let mut out: Vec<Sale> = Vec::new();
        let mut i: usize = 0;
        while i < db.sales.len()
            invariant
                0 <= i <= db.sales@.len(),
                out@ =~= db.sales@.subrange(0, i as int),
            decreases db.sales@.len() - i,
        {
            let next = db.sales[i].clone();
            out.push(next);
            proof {
                assert(out@ =~= db.sales@.subrange(0, i as int + 1));
            }
            i = i + 1;
        }
        proof {
            assert(db.sales@.subrange(0, db.sales@.len() as int) =~= db.sales@);
            assert(out.deep_view() =~= db@.sales);
        }
        out
    }

    /// Append a batch of sales — one checkout — to the ledger, in order.
    pub fn insert_all(db: &mut Database, sales: Vec<Sale>)
        ensures
            sales_appended(old(db)@, final(db)@, sales.deep_view()),
    {
        let ghost dv = sales.deep_view();
        let mut i: usize = 0;
        proof {
            assert(old(db)@.sales + dv.subrange(0, 0) =~= old(db)@.sales);
        }
        while i < sales.len()
            invariant
                0 <= i <= sales@.len(),
                dv == sales.deep_view(),
                dv.len() == sales@.len(),
                db.members == old(db).members,
                db.articles == old(db).articles,
                db.credentials == old(db).credentials,
                db.sales.deep_view() == old(db)@.sales + dv.subrange(0, i as int),
            decreases sales@.len() - i,
        {
            let ghost pre = db.sales.deep_view();
            let next = sales[i].clone();
            proof {
                assert(next@ == dv[i as int]);
            }
            db.sales.push(next);
            proof {
                assert(db.sales.deep_view() =~= pre.push(dv[i as int]));
                assert((old(db)@.sales + dv.subrange(0, i as int)).push(dv[i as int]) =~= old(
                    db,
                )@.sales + dv.subrange(0, i as int + 1));
            }
            i = i + 1;
        }
        proof {
            assert(dv.subrange(0, sales@.len() as int) =~= dv);
            assert(final(db)@ =~~= (DatabaseV { sales: old(db)@.sales + dv, ..old(db)@ }));
        }
    }

    /// Delete the sale with the given id from the ledger, keeping the order
    /// of the remaining sales.  Issued only after the remote service has
    /// acknowledged that sale.
    pub fn delete_by_id(db: &mut Database, id: u128)
        ensures
            final(db)@ == (DatabaseV { sales: sales_without(old(db)@.sales, id), ..old(db)@ }),
    {
        let ghost dv = db@.sales;
        let mut kept: Vec<Sale> = Vec::new();
        let mut i: usize = 0;
        proof {
            assert(dv.subrange(0, 0) =~= Seq::<SaleV>::empty());
            assert(kept.deep_view() =~= sales_without(dv.subrange(0, 0), id));
        }
        while i < db.sales.len()
            invariant
                0 <= i <= db@.sales.len(),
                dv == db@.sales,
                db.sales == old(db).sales,
                db.members == old(db).members,
                db.articles == old(db).articles,
                db.credentials == old(db).credentials,
                kept.deep_view() == sales_without(dv.subrange(0, i as int), id),
            decreases db@.sales.len() - i,
        {
            proof {
                broadcast use vstd::seq::Seq::lemma_filter_push;

                let before = dv.subrange(0, i as int);
                let cur = dv.subrange(0, i as int + 1);
                assert(cur =~= before.push(dv[i as int]));
                assert(sales_without(before.push(dv[i as int]), id) == (if dv[i as int].id != id {
                    sales_without(before, id).push(dv[i as int])
                } else {
                    sales_without(before, id)
                }));
            }
            if db.sales[i].id != id {
                let ghost pre = kept.deep_view();
                let next = db.sales[i].clone();
                proof {
                    assert(next@ == dv[i as int]);
                }
                kept.push(next);
                proof {
                    assert(kept.deep_view() =~= pre.push(dv[i as int]));
                    assert(kept.deep_view() =~= sales_without(dv.subrange(0, i as int), id).push(
                        dv[i as int],
                    ));
                }
            }
            i = i + 1;
        }
        proof {
            assert(dv.subrange(0, dv.len() as int) =~= dv);
        }
        db.sales = kept;
        proof {
            assert(final(db)@ =~~= (DatabaseV {
                sales: sales_without(old(db)@.sales, id),
                ..old(db)@
            }));
        }
    }
}

// ---------------------------------------------------------------------------
// The database
// ---------------------------------------------------------------------------

/// The whole durable local state: stored credentials, the catalog mirror
/// and the sale ledger.
pub struct Database {
    /// The stored credentials, if the setup has run.
    pub credentials: Option<Credentials>,
    /// The member rows of the catalog mirror.
    pub members: Vec<Member>,
    /// The article rows of the catalog mirror.
    pub articles: Vec<Article>,
    /// The outbox of completed, not yet acknowledged sales.
    pub sales: Vec<Sale>,
}

/// Mathematical image of [`Database`].
pub ghost struct DatabaseV {
    pub credentials: Option<CredentialsV>,
    pub members: Seq<MemberV>,
    pub articles: Seq<ArticleV>,
    pub sales: Seq<SaleV>,
}

impl View for Database {
    type V = DatabaseV;

    open spec fn view(&self) -> DatabaseV {
        DatabaseV {
            credentials: match self.credentials {
                Some(c) => Some(c@),
                None => None,
            },
            members: self.members.deep_view(),
            articles: self.articles.deep_view(),
            sales: self.sales.deep_view(),
        }
    }
}

impl Database {
    /// A fresh, empty database.
    pub fn new() -> (r: Database)
        ensures
            r@.credentials is None,
            r@.members == Seq::<MemberV>::empty(),
            r@.articles == Seq::<ArticleV>::empty(),
            r@.sales == Seq::<SaleV>::empty(),
    {
        let r = Database { credentials: None, members: Vec::new(), articles: Vec::new(), sales: Vec::new() };
        proof {
            assert(r@.members =~= Seq::<MemberV>::empty());
            assert(r@.articles =~= Seq::<ArticleV>::empty());
            assert(r@.sales =~= Seq::<SaleV>::empty());
        }
        r
    }
}

} // verus!
