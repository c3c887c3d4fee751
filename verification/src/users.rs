use vstd::prelude::*;

use crate::numbers::{dec_rep, u64_to_string};
use crate::storage::{views_of, User, UserView};

verus! {

/// Everything of the page that stands before the user rows.
pub open spec fn page_head() -> Seq<char> {
    "<!DOCTYPE html><html><head><title>Users Table</title></head><body><table><thead><tr><th>ID</th><th>Email</th></tr></thead><tbody>"@
}

/// Everything of the page that stands after the user rows: the closed
/// table, and the signup form posting its one required email input to
/// `/sign_up`.
pub open spec fn page_tail() -> Seq<char> {
    "</tbody></table><form action=\"sign_up\" method=\"POST\"><label for=\"user_email\">Email:</label><input id=\"user_email\" name=\"email\" type=\"email\" required=\"true\"/><button>Submit</button></form></body></html>"@
}

/// One table row: the user's id and email.
pub open spec fn row_spec(u: UserView) -> Seq<char>
    recommends
        u.id >= 0,
{
    "<tr><td><strong>"@ + dec_rep(u.id as nat) + "</strong></td><td>"@ + u.email + "</td></tr>"@
}

/// The rows of the table: one per user, in the order supplied.
pub open spec fn rows_spec(us: Seq<UserView>) -> Seq<char>
    decreases us.len(),
{
    if us.len() == 0 {
        Seq::empty()
    } else {
        rows_spec(us.drop_last()) + row_spec(us.last())
    }
}

/// The whole document.
pub open spec fn page_spec(us: Seq<UserView>) -> Seq<char> {
    page_head() + rows_spec(us) + page_tail()
}

/// Renders the user list as a self-contained HTML document: a table with
/// one row per user in the order supplied, and the signup form. Rendering
/// is a pure function of its input. Every user carries a storage-assigned
/// identity, so ids are never negative.
#[verifier::loop_isolation(false)]
pub fn users(list: Vec<User>) -> (r: String)
    requires
        forall|i: int| 0 <= i < list@.len() ==> (#[trigger] list@[i])@.id >= 0,
    ensures
        r@ == page_spec(views_of(list@)),
{
    let mut page = String::from_str(
        "<!DOCTYPE html><html><head><title>Users Table</title></head><body><table><thead><tr><th>ID</th><th>Email</th></tr></thead><tbody>",
    );
    proof {
        assert(views_of(list@).take(0) =~= Seq::<UserView>::empty());
        assert(page@ =~= page_head() + rows_spec(views_of(list@).take(0)));
    }
    let mut i: usize = 0;
    while i < list.len()
        invariant
            i <= list.len(),
            page@ == page_head() + rows_spec(views_of(list@).take(i as int)),
        decreases list@.len() - i,
    {
        let u = &list[i];
        page.append("<tr><td><strong>");
        let id_string = u64_to_string(u.id as u64);
        page.append(id_string.as_str());
        page.append("</strong></td><td>");
        page.append(u.email.as_str());
        page.append("</td></tr>");
        proof {
            let vs = views_of(list@);
            assert(vs.take(i as int + 1).drop_last() =~= vs.take(i as int));
            assert(vs.take(i as int + 1).last() == u@);
            assert(page@ =~= page_head() + rows_spec(vs.take(i as int + 1)));
        }
        i = i + 1;
    }
    page.append(
        "</tbody></table><form action=\"sign_up\" method=\"POST\"><label for=\"user_email\">Email:</label><input id=\"user_email\" name=\"email\" type=\"email\" required=\"true\"/><button>Submit</button></form></body></html>",
    );
    proof {
        assert(views_of(list@).take(list@.len() as int) =~= views_of(list@));
        assert(page@ =~= page_spec(views_of(list@)));
    }
    page
}

/// Law: the table body consists of exactly one row per user, in the order
/// the users were supplied.
pub proof fn lemma_rows_in_order(us: Seq<UserView>)
    ensures
        rows_spec(us) == Seq::new(us.len(), |i: int| row_spec(us[i])).flatten_alt(),
    decreases us.len(),
{
    let rows = Seq::new(us.len(), |i: int| row_spec(us[i]));
    if us.len() == 0 {
        assert(rows.flatten_alt() =~= Seq::<char>::empty());
    } else {
        lemma_rows_in_order(us.drop_last());
        let prev = Seq::new(us.drop_last().len(), |i: int| row_spec(us.drop_last()[i]));
        assert(rows.drop_last() =~= prev);
        assert(rows_spec(us) =~= rows.flatten_alt());
    }
}

/// Law: the rendered page for a sequence of N users is exactly the fixed
/// head, then N table rows — the i-th showing the i-th user's id and email —
/// then the fixed tail.
pub proof fn lemma_page_rows_in_order(us: Seq<UserView>)
    ensures
        page_spec(us) == page_head() + Seq::new(us.len(), |i: int| row_spec(us[i])).flatten_alt()
            + page_tail(),
{
    lemma_rows_in_order(us);
}

} // verus!
