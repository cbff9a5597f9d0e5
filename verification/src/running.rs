//! The steady state of the terminal: the scan/checkout interaction loop,
//! the catalog refresh, and the single-flight push of pending sales.
//!
//! The interaction loop collects typed characters in a buffer; the accept
//! key resolves the buffer as a member keycode (no member identified yet)
//! or as an article barcode (member identified).  Every cart line of a
//! confirmed checkout becomes one pending sale, appended to the ledger as
//! one batch; the cart and the member are cleared only once the append is
//! durably acknowledged, so no sale can be lost to a storage failure.

use vstd::prelude::*;

use crate::database;
use crate::database::{Article, ArticleV, Database, Member, MemberV};
use crate::dates::Date;
use crate::decimal::{max_mantissa, Decimal};
use crate::state::{Action, GlobalState, Key, Message};
use crate::vereinsflieger;
use crate::vereinsflieger::Client;

verus! {

/// Seconds of inactivity after which the interaction resolves by itself:
/// checkout for a non-empty cart, cancellation for an empty one.
pub const INTERACTION_TIMEOUT: u64 = 60;

// ---------------------------------------------------------------------------
// The cart
// ---------------------------------------------------------------------------

/// One line of the in-progress cart: an article and how often it was
/// scanned.
pub struct Sale {
    pub amount: u16,
    pub article: Article,
}

/// Mathematical image of a cart line.
pub ghost struct SaleV {
    pub amount: u16,
    pub article: ArticleV,
}

impl View for Sale {
    type V = SaleV;

    open spec fn view(&self) -> SaleV {
        SaleV { amount: self.amount, article: self.article@ }
    }
}

impl DeepView for Sale {
    type V = SaleV;

    open spec fn deep_view(&self) -> SaleV {
        self.view()
    }
}

impl Clone for Sale {
    fn clone(&self) -> (r: Sale)
        ensures
            r@ == self@,
    {
        Sale { amount: self.amount, article: self.article.clone() }
    }
}

impl Sale {
    /// The total of this cart line on the given day: amount times unit
    /// price, or zero when no price covers the day.  The product must stay
    /// within the mantissa range, as any caller's amounts do.
    pub fn total(&self, today: &Date) -> (r: Decimal)
        requires
            match database::spec_price_for_date(self.article.prices@, *today) {
                Some(p) => p.wf() && -max_mantissa() <= p.mantissa * self.amount <= max_mantissa(),
                None => true,
            },
        ensures
            r == match database::spec_price_for_date(self.article.prices@, *today) {
                Some(p) => (Decimal {
                    mantissa: (p.mantissa * self.amount) as i128,
                    scale: p.scale,
                }),
                None => (Decimal { mantissa: 0, scale: 0 }),
            },
    {
        match self.article.price_for_date(today) {
            Some(p) => p.times(self.amount),
            None => Decimal { mantissa: 0, scale: 0 },
        }
    }
}

// ---------------------------------------------------------------------------
// Catalog refresh: converting the raw remote lists
// ---------------------------------------------------------------------------

/// What converting the raw article list yields: every article whose price
/// rows all parse, in order; the others are dropped.
pub open spec fn spec_convert_articles(s: Seq<vereinsflieger::Article>) -> Seq<ArticleV> {
    s.filter_map(|a: vereinsflieger::Article| database::spec_article_of_raw(a))
}

/// The mapping from one raw key of a user to the member row it
/// contributes, if its keycode is accepted.
pub open spec fn member_of_key_fn(u: vereinsflieger::User) -> spec_fn(vereinsflieger::Key) -> Option<
    MemberV,
> {
    |k: vereinsflieger::Key|
        match database::normalize_keycode(k.name@) {
            Some(code) => Some(
                MemberV {
                    keycode: code,
                    id: u.member_id@,
                    firstname: u.first_name@,
                    lastname: u.last_name@,
                    nickname: u.nickname@,
                },
            ),
            None => None,
        }
}

/// The member rows one raw user contributes: one per accepted keycode, in
/// key order, all carrying the user's attributes.  A user without a single
/// valid keycode contributes none.
pub open spec fn spec_members_of_user(u: vereinsflieger::User) -> Seq<MemberV> {
    u.keymanagement@.filter_map(member_of_key_fn(u))
}

/// What converting the raw user list yields: the member rows of every
/// user, in user order.
pub open spec fn spec_convert_users(s: Seq<vereinsflieger::User>) -> Seq<MemberV> {
    s.flat_map(|u: vereinsflieger::User| spec_members_of_user(u))
}

/// Convert the raw article list, dropping every article with an invalid
/// price row.
pub fn convert_articles(raw: Vec<vereinsflieger::Article>) -> (r: Vec<Article>)
    ensures
        r.deep_view() == spec_convert_articles(raw@),
{
    broadcast use vstd::seq::Seq::lemma_filter_map_take_succ;

    let ghost dv = raw@;
    let mut raw = raw;
    let mut out: Vec<Article> = Vec::new();
    let ghost k: int = 0;
    proof {
        assert(dv.take(0) =~= Seq::<vereinsflieger::Article>::empty());
        assert(out.deep_view() =~= spec_convert_articles(dv.take(0)));
        assert(raw@ =~= dv.subrange(0, dv.len() as int));
    }
    while raw.len() > 0
        invariant
            0 <= k <= dv.len(),
            raw@ == dv.subrange(k, dv.len() as int),
            out.deep_view() == spec_convert_articles(dv.take(k)),
        decreases raw@.len(),
    {
        let a = raw.remove(0);
        proof {
            assert(a == dv[k]);
            assert(raw@ =~= dv.subrange(k + 1, dv.len() as int));
            assert(dv.take(k + 1).drop_last() =~= dv.take(k));
            assert(dv.take(k + 1).last() == dv[k]);
        }
        let ghost pre = out.deep_view();
        match Article::try_from(a) {
            Some(converted) => {
                out.push(converted);
                proof {
                    assert(out.deep_view() =~= pre.push(converted@));
                    assert(spec_convert_articles(dv.take(k + 1)) =~= spec_convert_articles(
                        dv.take(k),
                    ).push(converted@));
                }
            },
            None => {
                proof {
                    assert(spec_convert_articles(dv.take(k + 1)) =~= spec_convert_articles(
                        dv.take(k),
                    ));
                }
            },
        }
        proof {
            k = k + 1;
        }
    }
    proof {
        assert(dv.take(dv.len() as int) =~= dv);
    }
    out
}

/// Convert the raw user list into member rows, one per accepted keycode.
pub fn convert_users(raw: Vec<vereinsflieger::User>) -> (r: Vec<Member>)
    ensures
        r.deep_view() == spec_convert_users(raw@),
{
    let ghost dv = raw@;
    let mut raw = raw;
    let mut out: Vec<Member> = Vec::new();
    let ghost k: int = 0;
    proof {
        assert(dv.take(0).map_values(
            |u: vereinsflieger::User| spec_members_of_user(u),
        ) =~= Seq::<Seq<MemberV>>::empty());
        assert(Seq::<Seq<MemberV>>::empty().flatten() =~= Seq::<MemberV>::empty());
        assert(out.deep_view() =~= Seq::<MemberV>::empty());
        assert(raw@ =~= dv.subrange(0, dv.len() as int));
    }
    while raw.len() > 0
        invariant
            0 <= k <= dv.len(),
            raw@ == dv.subrange(k, dv.len() as int),
            out.deep_view() == spec_convert_users(dv.take(k)),
        decreases raw@.len(),
    {
        broadcast use vstd::seq::Seq::lemma_flatten_push;

        let u = raw.remove(0);
        proof {
            assert(u == dv[k]);
            assert(raw@ =~= dv.subrange(k + 1, dv.len() as int));
        }
        let ghost pre = out.deep_view();
        let mut rows = members_of_user(u);
        let ghost rows_dv = rows.deep_view();
        out.append(&mut rows);
        proof {
            assert(out.deep_view() =~= pre + rows_dv);
            assert(dv.take(k + 1).map_values(
                |x: vereinsflieger::User| spec_members_of_user(x),
            ) =~= dv.take(k).map_values(|x: vereinsflieger::User| spec_members_of_user(x)).push(
                rows_dv,
            ));
            assert(spec_convert_users(dv.take(k + 1)) =~= spec_convert_users(dv.take(k))
                + rows_dv);
            k = k + 1;
        }
    }
    proof {
        assert(dv.take(dv.len() as int) =~= dv);
    }
    out
}

/// The member rows of one raw user: its keycodes normalized, the invalid
/// ones dropped.
fn members_of_user(u: vereinsflieger::User) -> (r: Vec<Member>)
    ensures
        r.deep_view() == spec_members_of_user(u),
{
    broadcast use vstd::seq::Seq::lemma_filter_map_take_succ;

    let ghost uv = u;
    let vereinsflieger::User { member_id, first_name, last_name, nickname, keymanagement } = u;
    let ghost kv = keymanagement@;
    let mut keys = keymanagement;
    let mut out: Vec<Member> = Vec::new();
    let ghost k: int = 0;
    proof {
        assert(kv.take(0) =~= Seq::<vereinsflieger::Key>::empty());
        assert(out.deep_view() =~= kv.take(0).filter_map(member_of_key_fn(uv)));
        assert(keys@ =~= kv.subrange(0, kv.len() as int));
    }
    while keys.len() > 0
        invariant
            0 <= k <= kv.len(),
            keys@ == kv.subrange(k, kv.len() as int),
            out.deep_view() == kv.take(k).filter_map(member_of_key_fn(uv)),
            member_id == uv.member_id,
            first_name == uv.first_name,
            last_name == uv.last_name,
            nickname == uv.nickname,
        decreases keys@.len(),
    {
        let key = keys.remove(0);
        proof {
            assert(key == kv[k]);
            assert(keys@ =~= kv.subrange(k + 1, kv.len() as int));
            assert(kv.take(k + 1).drop_last() =~= kv.take(k));
            assert(kv.take(k + 1).last() == kv[k]);
        }
        let ghost pre = out.deep_view();
        match Member::parse_keycode(key) {
            Some(code) => {
                let row = Member {
                    keycode: code,
                    id: member_id.clone(),
                    firstname: first_name.clone(),
                    lastname: last_name.clone(),
                    nickname: nickname.clone(),
                };
                out.push(row);
                proof {
                    assert(out.deep_view() =~= pre.push(row@));
                    assert(member_of_key_fn(uv)(kv[k]) == Some(row@));
                    assert(kv.take(k + 1).filter_map(member_of_key_fn(uv)) =~= kv.take(
                        k,
                    ).filter_map(member_of_key_fn(uv)).push(row@));
                }
            },
            None => {
                proof {
                    assert(member_of_key_fn(uv)(kv[k]) is None);
                    assert(kv.take(k + 1).filter_map(member_of_key_fn(uv)) =~= kv.take(
                        k,
                    ).filter_map(member_of_key_fn(uv)));
                }
            },
        }
        proof {
            k = k + 1;
        }
    }
    proof {
        assert(kv.take(kv.len() as int) =~= kv);
    }
    out
}

} // verus!

verus! {

// ---------------------------------------------------------------------------
// The running state
// ---------------------------------------------------------------------------

/// One push cycle over a snapshot of the ledger: the sales to submit, in
/// ledger order, and how many have been dealt with.  While a cycle exists
/// no second one can start, so at most one set of submissions is ever in
/// flight.
pub struct UploadCycle {
    /// The pending sales as they stood when the cycle began.
    pub queue: Vec<database::Sale>,
    /// How many of them have been submitted (accepted or not).
    pub pos: usize,
}

/// The steady state: the local database, the remote client (when online),
/// the push cycle in flight (if any), and the interaction state of the
/// scan/checkout loop.
pub struct RunningClubFridge {
    pub db: Database,
    /// The remote client; absent in offline mode.
    pub vereinsflieger: Option<Client>,
    /// The push cycle in flight, if one is; doubles as the single-flight
    /// guard.
    pub upload: Option<UploadCycle>,
    /// The identified member, if one has scanned their token.
    pub user: Option<Member>,
    /// The input buffer the scanner is typing into.
    pub input: String,
    /// The in-progress cart.
    pub sales: Vec<Sale>,
    /// A checkout batch handed to storage, until its append is
    /// acknowledged.
    pub pending_sales: Option<Vec<database::Sale>>,
    /// Seconds until the interaction resolves by itself, while armed.
    pub interaction_timeout: Option<u64>,
}

// ---------------------------------------------------------------------------
// Pieces of the update specification
// ---------------------------------------------------------------------------

/// The sync side of the state is untouched.
pub open spec fn same_sync(pre: RunningClubFridge, post: RunningClubFridge) -> bool {
    &&& post.db == pre.db
    &&& post.vereinsflieger == pre.vereinsflieger
    &&& post.upload == pre.upload
    &&& post.pending_sales == pre.pending_sales
}

/// The interaction side of the state is untouched.
pub open spec fn same_interaction(pre: RunningClubFridge, post: RunningClubFridge) -> bool {
    &&& post.user == pre.user
    &&& post.input == pre.input
    &&& post.sales == pre.sales
    &&& post.interaction_timeout == pre.interaction_timeout
}

/// The global state is unchanged but for the popup, which now shows `text`.
pub open spec fn popup_shown(gpre: GlobalState, gpost: GlobalState, text: Seq<char>) -> bool {
    &&& gpost.options == gpre.options
    &&& gpost.self_updated == gpre.self_updated
    &&& gpost.popup matches Some(p) && p.message@ == text
}

/// The countdown as any input leaves it: re-armed in full while armed,
/// still off while off.
pub open spec fn rearmed(t: Option<u64>) -> Option<u64> {
    match t {
        Some(_) => Some(INTERACTION_TIMEOUT),
        None => None,
    }
}

/// A cart amount after one more scan; it saturates rather than wrap.
pub open spec fn bump(a: u16) -> u16 {
    if a < 0xFFFF {
        (a + 1) as u16
    } else {
        a
    }
}

pub open spec fn member_not_found_text(code: Seq<char>) -> Seq<char> {
    "Benutzer nicht gefunden ("@ + code + ")"@
}

pub open spec fn article_not_found_text(code: Seq<char>) -> Seq<char> {
    "Artikel nicht gefunden ("@ + code + ")"@
}

pub open spec fn article_unpriced_text(code: Seq<char>) -> Seq<char> {
    "Artikel hat keinen Preis ("@ + code + ")"@
}

pub open spec fn thanks_text() -> Seq<char> {
    "Danke für deinen Kauf"@
}

pub open spec fn save_failed_text() -> Seq<char> {
    "Speichern fehlgeschlagen"@
}

/// Scanning an article adds it to the cart: the first line already holding
/// the article counts one more unit (saturating), and an article without a
/// line yet is appended with one unit.
pub open spec fn cart_added(pre: Seq<SaleV>, post: Seq<SaleV>, a: ArticleV) -> bool {
    if exists|i: int| 0 <= i < pre.len() && (#[trigger] pre[i]).article.id == a.id {
        exists|i: int|
            {
                &&& 0 <= i < pre.len()
                &&& (#[trigger] pre[i]).article.id == a.id
                &&& (forall|j: int| 0 <= j < i ==> pre[j].article.id != a.id)
                &&& post == pre.update(
                    i,
                    SaleV { amount: bump(pre[i].amount), article: pre[i].article },
                )
            }
    } else {
        post == pre.push(SaleV { amount: 1, article: a })
    }
}

/// A checkout batch for the cart: one pending sale per cart line, in cart
/// order, dated `today`, against `member_id`, with the line's article and
/// amount.  (The fresh sale ids are chosen by the id generator and are not
/// pinned here.)
pub open spec fn checkout_batch(
    cart: Seq<SaleV>,
    member_id: Seq<char>,
    today: Date,
    batch: Seq<database::SaleV>,
) -> bool {
    &&& batch.len() == cart.len()
    &&& forall|i: int|
        0 <= i < cart.len() ==> {
            &&& (#[trigger] batch[i]).date == today
            &&& batch[i].member_id == member_id
            &&& batch[i].article_id == cart[i].article.id
            &&& batch[i].amount == cart[i].amount as u32
        }
}

/// Triggering a push: a no-op while offline, while a cycle is already in
/// flight (at most one is ever in flight), and with an empty ledger;
/// otherwise a cycle over a snapshot of the ledger begins and the first
/// sale goes out.
pub open spec fn upload_trigger_post(
    pre: RunningClubFridge,
    post: RunningClubFridge,
    gpre: GlobalState,
    gpost: GlobalState,
    acts: Seq<Action>,
) -> bool {
    &&& gpost == gpre
    &&& same_interaction(pre, post)
    &&& post.db == pre.db
    &&& post.vereinsflieger == pre.vereinsflieger
    &&& post.pending_sales == pre.pending_sales
    &&& if pre.vereinsflieger is None || pre.upload is Some || pre.db.sales@.len() == 0 {
        post.upload == pre.upload && acts.len() == 0
    } else {
        &&& post.upload matches Some(cy)
        &&& cy.queue@ == pre.db.sales@
        &&& cy.pos == 0
        &&& acts.len() == 1
        &&& acts[0] == Action::SubmitSale(pre.db.sales@[0])
    }
}

/// One submission came back: an accepted sale — and only an accepted one —
/// leaves the ledger (and the durable mirror), the cycle moves to the next
/// sale or ends, and nothing else changes.
pub open spec fn sale_submitted_post(
    pre: RunningClubFridge,
    post: RunningClubFridge,
    gpre: GlobalState,
    gpost: GlobalState,
    accepted: bool,
    acts: Seq<Action>,
) -> bool {
    &&& gpost == gpre
    &&& same_interaction(pre, post)
    &&& post.vereinsflieger == pre.vereinsflieger
    &&& post.pending_sales == pre.pending_sales
    &&& match pre.upload {
        Some(cy) => {
            if cy.pos < cy.queue@.len() {
                let cur = cy.queue@[cy.pos as int];
                &&& (if accepted {
                    post.db@ == (database::DatabaseV {
                        sales: database::sales_without(pre.db@.sales, cur.id),
                        ..pre.db@
                    })
                } else {
                    post.db == pre.db
                })
                &&& (if cy.pos + 1 < cy.queue@.len() {
                    post.upload matches Some(cy2) && cy2.queue == cy.queue && cy2.pos == cy.pos
                        + 1
                } else {
                    post.upload is None
                })
                &&& acts == (if accepted {
                    seq![Action::DeleteSale(cur.id)]
                } else {
                    Seq::<Action>::empty()
                }) + (if cy.pos + 1 < cy.queue@.len() {
                    seq![Action::SubmitSale(cy.queue@[cy.pos as int + 1])]
                } else {
                    Seq::<Action>::empty()
                })
            } else {
                post.db == pre.db && post.upload is None && acts.len() == 0
            }
        },
        None => post == pre && acts.len() == 0,
    }
}

/// The accept key resolves the buffer: as a member token while nobody is
/// identified, as an article barcode while somebody is.  Unknown tokens,
/// unknown articles and articles without a price for today give a
/// transient notice and change nothing else.
pub open spec fn key_enter_post(
    pre: RunningClubFridge,
    post: RunningClubFridge,
    gpre: GlobalState,
    gpost: GlobalState,
    today: Date,
    acts: Seq<Action>,
) -> bool {
    let code = pre.input@;
    &&& post.input@ == Seq::<char>::empty()
    &&& post.db == pre.db
    &&& post.vereinsflieger == pre.vereinsflieger
    &&& post.upload == pre.upload
    &&& post.pending_sales == pre.pending_sales
    &&& gpost.options == gpre.options
    &&& gpost.self_updated == gpre.self_updated
    &&& match pre.user {
        None => {
            &&& post.sales == pre.sales
            &&& match database::spec_find_member(pre.db@.members, code) {
                Some(m) => {
                    &&& post.user matches Some(u) && u@ == m
                    &&& post.interaction_timeout == Some(INTERACTION_TIMEOUT)
                    &&& gpost.popup is None
                    &&& acts.len() == 0
                },
                None => {
                    &&& post.user is None
                    &&& post.interaction_timeout == rearmed(pre.interaction_timeout)
                    &&& gpost.popup matches Some(p) && p.message@ == member_not_found_text(code)
                    &&& acts == seq![Action::StartPopupTimer]
                },
            }
        },
        Some(_) => {
            &&& post.user == pre.user
            &&& match database::spec_find_article(pre.db@.articles, code) {
                Some(a) => {
                    if database::spec_price_for_date(a.prices, today) is Some {
                        &&& cart_added(pre.sales.deep_view(), post.sales.deep_view(), a)
                        &&& post.interaction_timeout == Some(INTERACTION_TIMEOUT)
                        &&& gpost.popup is None
                        &&& acts.len() == 0
                    } else {
                        &&& post.sales == pre.sales
                        &&& post.interaction_timeout == rearmed(pre.interaction_timeout)
                        &&& gpost.popup matches Some(p) && p.message@ == article_unpriced_text(
                            code,
                        )
                        &&& acts == seq![Action::StartPopupTimer]
                    }
                },
                None => {
                    &&& post.sales == pre.sales
                    &&& post.interaction_timeout == rearmed(pre.interaction_timeout)
                    &&& gpost.popup matches Some(p) && p.message@ == article_not_found_text(code)
                    &&& acts == seq![Action::StartPopupTimer]
                },
            }
        },
    }
}

/// Checkout: with a member and a non-empty cart (and no batch already on
/// its way to storage), every cart line becomes a pending sale dated
/// today; the batch goes to storage, and nothing is cleared until storage
/// acknowledges it.
pub open spec fn pay_post(
    pre: RunningClubFridge,
    post: RunningClubFridge,
    gpre: GlobalState,
    gpost: GlobalState,
    today: Date,
    acts: Seq<Action>,
) -> bool {
    match pre.user {
        Some(u) => {
            if pre.sales@.len() > 0 && pre.pending_sales is None {
                &&& gpost == gpre
                &&& post.db == pre.db
                &&& post.vereinsflieger == pre.vereinsflieger
                &&& post.upload == pre.upload
                &&& post.user == pre.user
                &&& post.input == pre.input
                &&& post.sales == pre.sales
                &&& post.interaction_timeout is None
                &&& post.pending_sales matches Some(b)
                &&& checkout_batch(pre.sales.deep_view(), u.id@, today, b.deep_view())
                &&& acts.len() == 1
                &&& acts[0] matches Action::SaveSales(b2)
                &&& b2@ == b@
            } else {
                post == pre && gpost == gpre && acts.len() == 0
            }
        },
        None => post == pre && gpost == gpre && acts.len() == 0,
    }
}

/// Storage acknowledged the checkout batch: it is appended to the ledger,
/// cart and member are cleared, thanks are shown, and a push is triggered.
pub open spec fn sales_saved_post(
    pre: RunningClubFridge,
    post: RunningClubFridge,
    gpre: GlobalState,
    gpost: GlobalState,
    acts: Seq<Action>,
) -> bool {
    match pre.pending_sales {
        Some(b) => {
            &&& database::sales_appended(pre.db@, post.db@, b.deep_view())
            &&& post.vereinsflieger == pre.vereinsflieger
            &&& post.upload == pre.upload
            &&& post.pending_sales is None
            &&& post.user is None
            &&& post.sales@.len() == 0
            &&& post.input == pre.input
            &&& post.interaction_timeout is None
            &&& popup_shown(gpre, gpost, thanks_text())
            &&& acts == seq![
                Action::StartPopupTimer,
                Action::Dispatch(Message::UploadSalesToVF),
            ]
        },
        None => post == pre && gpost == gpre && acts.len() == 0,
    }
}

/// What handling one message does to the running terminal.
pub open spec fn running_update_post(
    pre: RunningClubFridge,
    post: RunningClubFridge,
    gpre: GlobalState,
    gpost: GlobalState,
    msg: Message,
    acts: Seq<Action>,
    today: Date,
) -> bool {
    match msg {
        Message::KeyPress(key) => match key {
            Key::Character(c) => {
                &&& post.input@ == pre.input@.push(c)
                &&& post.db == pre.db
                &&& post.vereinsflieger == pre.vereinsflieger
                &&& post.upload == pre.upload
                &&& post.pending_sales == pre.pending_sales
                &&& post.user == pre.user
                &&& post.sales == pre.sales
                &&& post.interaction_timeout == rearmed(pre.interaction_timeout)
                &&& gpost.options == gpre.options
                &&& gpost.self_updated == gpre.self_updated
                &&& gpost.popup is None
                &&& acts.len() == 0
            },
            Key::Enter => key_enter_post(pre, post, gpre, gpost, today, acts),
        },
        Message::Pay => pay_post(pre, post, gpre, gpost, today, acts),
        Message::SalesSaved => sales_saved_post(pre, post, gpre, gpost, acts),
        Message::SavingSalesFailed => {
            &&& post == (RunningClubFridge { pending_sales: None, ..pre })
            &&& popup_shown(gpre, gpost, save_failed_text())
            &&& acts == seq![Action::StartPopupTimer]
        },
        Message::Cancel => {
            &&& post.db == pre.db
            &&& post.vereinsflieger == pre.vereinsflieger
            &&& post.upload == pre.upload
            &&& post.pending_sales == pre.pending_sales
            &&& post.input == pre.input
            &&& post.user is None
            &&& post.sales@.len() == 0
            &&& post.interaction_timeout is None
            &&& gpost == gpre
            &&& acts.len() == 0
        },
        Message::DecrementTimeout => {
            match pre.interaction_timeout {
                Some(t) => {
                    &&& gpost == gpre
                    &&& same_sync(pre, post)
                    &&& post.user == pre.user
                    &&& post.input == pre.input
                    &&& post.sales == pre.sales
                    &&& if t > 1 {
                        post.interaction_timeout == Some((t - 1) as u64) && acts.len() == 0
                    } else {
                        &&& post.interaction_timeout is None
                        &&& acts == seq![
                            Action::Dispatch(
                                if pre.sales@.len() == 0 {
                                    Message::Cancel
                                } else {
                                    Message::Pay
                                },
                            ),
                        ]
                    }
                },
                None => post == pre && gpost == gpre && acts.len() == 0,
            }
        },
        Message::LoadFromVF => {
            &&& post == pre
            &&& gpost == gpre
            &&& acts == (if pre.vereinsflieger is Some {
                seq![Action::FetchCatalog]
            } else {
                Seq::<Action>::empty()
            })
        },
        Message::ArticlesFetched(raw) => {
            &&& database::articles_replaced(pre.db@, post.db@, spec_convert_articles(raw@))
            &&& post.vereinsflieger == pre.vereinsflieger
            &&& post.upload == pre.upload
            &&& post.pending_sales == pre.pending_sales
            &&& same_interaction(pre, post)
            &&& gpost == gpre
            &&& acts.len() == 1
            &&& acts[0] matches Action::PersistArticles(v)
            &&& v.deep_view() == spec_convert_articles(raw@)
        },
        Message::UsersFetched(raw) => {
            &&& database::members_replaced(pre.db@, post.db@, spec_convert_users(raw@))
            &&& post.vereinsflieger == pre.vereinsflieger
            &&& post.upload == pre.upload
            &&& post.pending_sales == pre.pending_sales
            &&& same_interaction(pre, post)
            &&& gpost == gpre
            &&& acts.len() == 1
            &&& acts[0] matches Action::PersistMembers(v)
            &&& v.deep_view() == spec_convert_users(raw@)
        },
        Message::UploadSalesToVF => upload_trigger_post(pre, post, gpre, gpost, acts),
        Message::SaleSubmitted { accepted } => sale_submitted_post(
            pre,
            post,
            gpre,
            gpost,
            accepted,
            acts,
        ),
        _ => post == pre && gpost == gpre && acts.len() == 0,
    }
}

/// What entering the running state establishes: the fresh steady state
/// over the given database and client, and — online — an immediate catalog
/// refresh and sale push.
pub open spec fn running_new_post(
    db: Database,
    client: Option<Client>,
    r: RunningClubFridge,
    acts: Seq<Action>,
) -> bool {
    &&& r.db == db
    &&& r.vereinsflieger == client
    &&& r.upload is None
    &&& r.user is None
    &&& r.input@ == Seq::<char>::empty()
    &&& r.sales@.len() == 0
    &&& r.pending_sales is None
    &&& r.interaction_timeout is None
    &&& acts == (if client is Some {
        seq![
            Action::Dispatch(Message::LoadFromVF),
            Action::Dispatch(Message::UploadSalesToVF),
        ]
    } else {
        Seq::<Action>::empty()
    })
}

} // verus!

verus! {

// ---------------------------------------------------------------------------
// Trusted helpers
// ---------------------------------------------------------------------------

/// A fresh sale identifier.
///
/// Relies on `ulid::Ulid::generate`: the identifier is built from the
/// clock and a random number, so nothing is promised about its value; the
/// ledger itself keeps checkout order.
#[verifier::external_body]
fn fresh_sale_id() -> u128 {
    ulid::Ulid::generate().0
}

/// Relies on `String::push`: appends the one character to the end.
#[verifier::external_body]
fn push_char(s: &mut String, c: char)
    ensures
        final(s)@ == old(s)@.push(c),
{
    s.push(c);
}

// ---------------------------------------------------------------------------
// Verified helpers
// ---------------------------------------------------------------------------

/// Add a scanned article to the cart: count one more unit on its first
/// existing line, or open a line with one unit.
fn cart_add(cart: &mut Vec<Sale>, article: Article)
    ensures
        cart_added(old(cart).deep_view(), final(cart).deep_view(), article@),
{
    let mut j: usize = 0;
    while j < cart.len()
        invariant
            0 <= j <= cart@.len(),
            cart == old(cart),
            forall|t: int| 0 <= t < j ==> cart.deep_view()[t].article.id != article@.id,
        decreases cart@.len() - j,
    {
        if cart[j].article.id == article.id {
            let amount = cart[j].amount;
            let bumped: u16 = if amount < 0xFFFF {
                amount + 1
            } else {
                amount
            };
            let kept_article = cart[j].article.clone();
            let updated = Sale { amount: bumped, article: kept_article };
            let ghost pre = cart.deep_view();
            cart[j] = updated;
            proof {
                assert(cart.deep_view() =~= pre.update(
                    j as int,
                    SaleV { amount: bump(pre[j as int].amount), article: pre[j as int].article },
                ));
                assert(pre[j as int].article.id == article@.id);
            }
            return;
        }
        j = j + 1;
    }
    let ghost pre = cart.deep_view();
    cart.push(Sale { amount: 1, article });
    proof {
        assert(cart.deep_view() =~= pre.push(SaleV { amount: 1, article: article@ }));
        assert(!(exists|i: int|
            0 <= i < pre.len() && (#[trigger] pre[i]).article.id == article@.id));
    }
}

/// The checkout batch for the cart: one pending sale per line, dated
/// `today`, against `member_id`, each with a fresh id.
fn build_batch(cart: &Vec<Sale>, member_id: &String, today: &Date) -> (r: Vec<database::Sale>)
    ensures
        checkout_batch(cart.deep_view(), member_id@, *today, r.deep_view()),
{
    let mut out: Vec<database::Sale> = Vec::new();
    let mut i: usize = 0;
    while i < cart.len()
        invariant
            0 <= i <= cart@.len(),
            out@.len() == i,
            forall|t: int|
                0 <= t < i ==> {
                    &&& (#[trigger] out.deep_view()[t]).date == *today
                    &&& out.deep_view()[t].member_id == member_id@
                    &&& out.deep_view()[t].article_id == cart.deep_view()[t].article.id
                    &&& out.deep_view()[t].amount == cart.deep_view()[t].amount as u32
                },
        decreases cart@.len() - i,
    {
        let line = database::Sale {
            id: fresh_sale_id(),
            date: *today,
            member_id: member_id.clone(),
            article_id: cart[i].article.id.clone(),
            amount: cart[i].amount as u32,
        };
        let ghost pre = out.deep_view();
        proof {
            assert(line@.date == *today);
            assert(line@.member_id == member_id@);
            assert(line@.article_id == cart.deep_view()[i as int].article.id);
            assert(line@.amount == cart.deep_view()[i as int].amount as u32);
        }
        out.push(line);
        proof {
            assert(out.deep_view() =~= pre.push(line@));
        }
        i = i + 1;
    }
    out
}

/// A copy of an article list, row for row.
fn clone_articles(v: &Vec<Article>) -> (r: Vec<Article>)
    ensures
        r.deep_view() == v.deep_view(),
{
    let mut out: Vec<Article> = Vec::new();
    let mut i: usize = 0;
    while i < v.len()
        invariant
            0 <= i <= v@.len(),
            out.deep_view() =~= v.deep_view().subrange(0, i as int),
        decreases v@.len() - i,
    {
        let ghost pre = out.deep_view();
        let next = v[i].clone();
        proof {
            assert(next@ == v.deep_view()[i as int]);
        }
        out.push(next);
        proof {
            assert(out.deep_view() =~= pre.push(v.deep_view()[i as int]));
            assert(v.deep_view().subrange(0, i as int).push(v.deep_view()[i as int])
                =~= v.deep_view().subrange(0, i as int + 1));
        }
        i = i + 1;
    }
    proof {
        assert(v.deep_view().subrange(0, v@.len() as int) =~= v.deep_view());
    }
    out
}

/// A copy of a member list, row for row.
fn clone_members(v: &Vec<Member>) -> (r: Vec<Member>)
    ensures
        r.deep_view() == v.deep_view(),
{
    let mut out: Vec<Member> = Vec::new();
    let mut i: usize = 0;
    while i < v.len()
        invariant
            0 <= i <= v@.len(),
            out@ =~= v@.subrange(0, i as int),
        decreases v@.len() - i,
    {
        let next = v[i].clone();
        out.push(next);
        proof {
            assert(out@ =~= v@.subrange(0, i as int + 1));
        }
        i = i + 1;
    }
    proof {
        assert(v@.subrange(0, v@.len() as int) =~= v@);
        assert(out.deep_view() =~= v.deep_view());
    }
    out
}

/// A copy of a ledger batch, row for row.
fn clone_batch(v: &Vec<database::Sale>) -> (r: Vec<database::Sale>)
    ensures
        r@ == v@,
{
    let mut out: Vec<database::Sale> = Vec::new();
    let mut i: usize = 0;
    while i < v.len()
        invariant
            0 <= i <= v@.len(),
            out@ =~= v@.subrange(0, i as int),
        decreases v@.len() - i,
    {
        let next = v[i].clone();
        out.push(next);
        proof {
            assert(out@ =~= v@.subrange(0, i as int + 1));
        }
        i = i + 1;
    }
    proof {
        assert(v@.subrange(0, v@.len() as int) =~= v@);
    }
    out
}

impl RunningClubFridge {
    /// Enter the steady state over the given database; online (with a
    /// client) the catalog refresh and the sale push start right away.
    pub fn new(db: Database, vereinsflieger: Option<Client>) -> (r: (
        RunningClubFridge,
        Vec<Action>,
    ))
        ensures
            running_new_post(db, vereinsflieger, r.0, r.1@),
    {
        let online = vereinsflieger.is_some();
        let cf = RunningClubFridge {
            db,
            vereinsflieger,
            upload: None,
            user: None,
            input: String::new(),
            sales: Vec::new(),
            pending_sales: None,
            interaction_timeout: None,
        };
        let acts: Vec<Action> = if online {
            let a = vec![
                Action::Dispatch(Message::LoadFromVF),
                Action::Dispatch(Message::UploadSalesToVF),
            ];
            proof {
                assert(a@ =~= seq![
                    Action::Dispatch(Message::LoadFromVF),
                    Action::Dispatch(Message::UploadSalesToVF),
                ]);
            }
            a
        } else {
            Vec::new()
        };
        (cf, acts)
    }

    /// Handle one message in the steady state.  `today` is the calendar
    /// date the decisions are made against.
    pub fn update(&mut self, message: Message, global: &mut GlobalState, today: Date) -> (acts:
        Vec<Action>)
        ensures
            running_update_post(
                *old(self),
                *final(self),
                *old(global),
                *final(global),
                message,
                acts@,
                today,
            ),
    {
        match message {
            Message::KeyPress(key) => match key {
                Key::Character(c) => {
                    push_char(&mut self.input, c);
                    if self.interaction_timeout.is_some() {
                        self.interaction_timeout = Some(INTERACTION_TIMEOUT);
                    }
                    global.hide_popup();
                    Vec::new()
                },
                Key::Enter => {
                    let code = self.input.clone();
                    self.input = String::new();
                    if self.user.is_some() {
                        match Article::find_by_barcode(&self.db, &code) {
                            Some(article) => {
                                if article.price_for_date(&today).is_some() {
                                    cart_add(&mut self.sales, article);
                                    self.interaction_timeout = Some(INTERACTION_TIMEOUT);
                                    global.hide_popup();
                                    Vec::new()
                                } else {
                                    if self.interaction_timeout.is_some() {
                                        self.interaction_timeout = Some(INTERACTION_TIMEOUT);
                                    }
                                    let mut msg = String::from_str("Artikel hat keinen Preis (");
                                    msg.append(code.as_str());
                                    msg.append(")");
                                    global.show_popup(msg);
                                    let acts = vec![Action::StartPopupTimer];
                                    proof {
                                        assert(acts@ =~= seq![Action::StartPopupTimer]);
                                    }
                                    acts
                                }
                            },
                            None => {
                                if self.interaction_timeout.is_some() {
                                    self.interaction_timeout = Some(INTERACTION_TIMEOUT);
                                }
                                let mut msg = String::from_str("Artikel nicht gefunden (");
                                msg.append(code.as_str());
                                msg.append(")");
                                global.show_popup(msg);
                                let acts = vec![Action::StartPopupTimer];
                                proof {
                                    assert(acts@ =~= seq![Action::StartPopupTimer]);
                                }
                                acts
                            },
                        }
                    } else {
                        match Member::find_by_keycode(&self.db, &code) {
                            Some(member) => {
                                self.user = Some(member);
                                self.interaction_timeout = Some(INTERACTION_TIMEOUT);
                                global.hide_popup();
                                Vec::new()
                            },
                            None => {
                                if self.interaction_timeout.is_some() {
                                    self.interaction_timeout = Some(INTERACTION_TIMEOUT);
                                }
                                let mut msg = String::from_str("Benutzer nicht gefunden (");
                                msg.append(code.as_str());
                                msg.append(")");
                                global.show_popup(msg);
                                let acts = vec![Action::StartPopupTimer];
                                proof {
                                    assert(acts@ =~= seq![Action::StartPopupTimer]);
                                }
                                acts
                            },
                        }
                    }
                },
            },
            Message::Pay => {
                if self.user.is_some() && self.sales.len() > 0 && self.pending_sales.is_none() {
                    self.interaction_timeout = None;
                    let member_id = match &self.user {
                        Some(u) => u.id.clone(),
                        None => String::new(),
                    };
                    let batch = build_batch(&self.sales, &member_id, &today);
                    let mirror = clone_batch(&batch);
                    self.pending_sales = Some(batch);
                    let acts = vec![Action::SaveSales(mirror)];
                    acts
                } else {
                    Vec::new()
                }
            },
            Message::SalesSaved => {
                match self.pending_sales.take() {
                    Some(batch) => {
                        database::Sale::insert_all(&mut self.db, batch);
                        self.user = None;
                        self.sales = Vec::new();
                        self.interaction_timeout = None;
                        global.show_popup(String::from_str("Danke für deinen Kauf"));
                        let acts = vec![
                            Action::StartPopupTimer,
                            Action::Dispatch(Message::UploadSalesToVF),
                        ];
                        proof {
                            assert(acts@ =~= seq![
                                Action::StartPopupTimer,
                                Action::Dispatch(Message::UploadSalesToVF),
                            ]);
                        }
                        acts
                    },
                    None => Vec::new(),
                }
            },
            Message::SavingSalesFailed => {
                self.pending_sales = None;
                global.show_popup(String::from_str("Speichern fehlgeschlagen"));
                let acts = vec![Action::StartPopupTimer];
                proof {
                    assert(acts@ =~= seq![Action::StartPopupTimer]);
                }
                acts
            },
            Message::Cancel => {
                self.user = None;
                self.sales = Vec::new();
                self.interaction_timeout = None;
                Vec::new()
            },
            Message::DecrementTimeout => {
                match self.interaction_timeout {
                    Some(t) => {
                        if t > 1 {
                            self.interaction_timeout = Some(t - 1);
                            Vec::new()
                        } else {
                            self.interaction_timeout = None;
                            let next = if self.sales.len() == 0 {
                                Message::Cancel
                            } else {
                                Message::Pay
                            };
                            let ghost gnext = next;
                            let acts = vec![Action::Dispatch(next)];
                            proof {
                                assert(acts@ =~= seq![Action::Dispatch(gnext)]);
                            }
                            acts
                        }
                    },
                    None => Vec::new(),
                }
            },
            Message::LoadFromVF => {
                if self.vereinsflieger.is_some() {
                    let acts = vec![Action::FetchCatalog];
                    proof {
                        assert(acts@ =~= seq![Action::FetchCatalog]);
                    }
                    acts
                } else {
                    Vec::new()
                }
            },
            Message::ArticlesFetched(raw) => {
                let converted = convert_articles(raw);
                let mirror = clone_articles(&converted);
                database::Article::save_all(&mut self.db, converted);
                let acts = vec![Action::PersistArticles(mirror)];
                acts
            },
            Message::UsersFetched(raw) => {
                let converted = convert_users(raw);
                let mirror = clone_members(&converted);
                database::Member::save_all(&mut self.db, converted);
                let acts = vec![Action::PersistMembers(mirror)];
                acts
            },
            Message::UploadSalesToVF => {
                if self.vereinsflieger.is_some() && self.upload.is_none() && self.db.sales.len()
                    > 0 {
                    let queue = database::Sale::load_all(&self.db);
                    let first = queue[0].clone();
                    self.upload = Some(UploadCycle { queue, pos: 0 });
                    let acts = vec![Action::SubmitSale(first)];
                    acts
                } else {
                    Vec::new()
                }
            },
            Message::SaleSubmitted { accepted } => {
                match self.upload.take() {
                    Some(cy) => {
                        if cy.pos < cy.queue.len() {
                            let cur_id = cy.queue[cy.pos].id;
                            let mut acts: Vec<Action> = Vec::new();
                            if accepted {
                                database::Sale::delete_by_id(&mut self.db, cur_id);
                                acts.push(Action::DeleteSale(cur_id));
                            }
                            let next_pos = cy.pos + 1;
                            if next_pos < cy.queue.len() {
                                let next = cy.queue[next_pos].clone();
                                acts.push(Action::SubmitSale(next));
                                self.upload = Some(UploadCycle { queue: cy.queue, pos: next_pos });
                            }
                            proof {
                                let spec_acts = (if accepted {
                                    seq![Action::DeleteSale(old(self).upload.unwrap().queue@[old(
                                        self,
                                    ).upload.unwrap().pos as int].id)]
                                } else {
                                    Seq::<Action>::empty()
                                }) + (if old(self).upload.unwrap().pos + 1 < old(
                                    self,
                                ).upload.unwrap().queue@.len() {
                                    seq![Action::SubmitSale(old(self).upload.unwrap().queue@[old(
                                        self,
                                    ).upload.unwrap().pos as int + 1])]
                                } else {
                                    Seq::<Action>::empty()
                                });
                                assert(acts@ =~= spec_acts);
                            }
                            acts
                        } else {
                            Vec::new()
                        }
                    },
                    None => Vec::new(),
                }
            },
            _ => Vec::new(),
        }
    }
}

} // verus!

verus! {

/// At most one push cycle in flight: triggering the sale push while a
/// cycle is already running is a no-op — nothing changes and no sale is
/// submitted, so the current ledger contents are pushed by exactly one set
/// of submissions, never two overlapping ones.
pub proof fn lemma_push_single_flight(
    pre: RunningClubFridge,
    post: RunningClubFridge,
    gpre: GlobalState,
    gpost: GlobalState,
    acts: Seq<Action>,
)
    requires
        pre.upload is Some,
        upload_trigger_post(pre, post, gpre, gpost, acts),
    ensures
        post == pre,
        gpost == gpre,
        acts.len() == 0,
{
}

/// The interaction timeout with an untouched cart cancels: when the
/// countdown runs out and the cart is empty, the tick dispatches a
/// cancellation, and handling it clears the member without writing
/// anything to the ledger.
pub proof fn lemma_timeout_with_empty_cart_cancels(
    pre: RunningClubFridge,
    mid: RunningClubFridge,
    post: RunningClubFridge,
    g0: GlobalState,
    g1: GlobalState,
    g2: GlobalState,
    acts1: Seq<Action>,
    acts2: Seq<Action>,
    today: Date,
)
    requires
        pre.interaction_timeout matches Some(t) && t <= 1,
        pre.sales@.len() == 0,
        running_update_post(pre, mid, g0, g1, Message::DecrementTimeout, acts1, today),
        running_update_post(mid, post, g1, g2, Message::Cancel, acts2, today),
    ensures
        acts1 == seq![Action::Dispatch(Message::Cancel)],
        post.user is None,
        post.sales@.len() == 0,
        post.interaction_timeout is None,
        post.db == pre.db,
        g2 == g0,
        acts2.len() == 0,
{
}

} // verus!
