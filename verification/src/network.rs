//! The network side of the installer: which device and which networks the
//! network tool lists, whether the probe reached the outside, and the call
//! that joins a network.

use crate::action::{owned, Action, ActionView, Outcome};
use crate::data::Data;
use crate::table::{lemma_rows_have_fields, lemma_rows_hold_texts, parse_table, table};
use crate::text::lines;
use vstd::prelude::*;

verus! {

/// Number of header lines above the rows of the network tool's listings.
pub const HEADER_ROWS: usize = 3;

/// Width of the run of blanks that sets the columns of those listings apart.
pub const COLUMN_GAP: usize = 2;

/// Number of columns that a row of those listings has at least: the name and
/// what is said of it.
pub const COLUMNS: usize = 2;

/// The association tool could not be run.
#[derive(Clone, Copy, PartialEq, Eq, Structural, Debug)]
pub enum ConnectError {
    NotStarted,
}

/// The first field of every row.
pub open spec fn first_fields(rows: Seq<Seq<Seq<char>>>) -> Seq<Seq<char>> {
    Seq::new(rows.len(), |i: int| rows[i][0])
}

/// The rows of a listing of the network tool.
pub open spec fn listing_rows(listing: Seq<char>) -> Seq<Seq<Seq<char>>> {
    table(listing, HEADER_ROWS as nat, COLUMN_GAP as nat, COLUMNS as nat)
}

/// The network device that a device listing names: the first field of its
/// first row. A listing without rows names none.
pub open spec fn device_of(listing: Seq<char>) -> Option<Seq<char>> {
    if listing_rows(listing).len() == 0 {
        None
    } else {
        Some(listing_rows(listing)[0][0])
    }
}

/// The networks that a scan listing names: the first field of each row, in
/// the order of the rows.
pub open spec fn networks_of(listing: Seq<char>) -> Seq<Seq<char>> {
    first_fields(listing_rows(listing))
}

/// Whether a probe that ended with `outcome` reached the outside. A probe that
/// could not be run counts as one that got no answer.
pub open spec fn reachable(outcome: Outcome) -> bool {
    outcome == Outcome::Done
}

/// The call that joins the network `ssid` through `device`.
pub open spec fn connect_spec(device: Seq<char>, ssid: Seq<char>, password: Seq<char>)
    -> ActionView {
    ActionView::Run {
        program: "iwctl"@,
        args: seq!["station"@, device, "connect"@, ssid, password],
    }
}

/// What the end of the association call means: only a tool that could not be
/// run is an error. Whether the network was joined shows in the next probe.
pub open spec fn connect_result_spec(outcome: Outcome) -> Result<(), ConnectError> {
    if outcome == Outcome::NotStarted {
        Err(ConnectError::NotStarted)
    } else {
        Ok(())
    }
}

/// A device that a listing names has a name that is not empty.
pub proof fn lemma_device_has_a_name(listing: Seq<char>)
    ensures
        device_of(listing) matches Some(device) ==> device.len() > 0,
{
    let ls = lines(listing);
    if HEADER_ROWS < ls.len() {
        let rows = ls.subrange(HEADER_ROWS as int, ls.len() as int);
        lemma_rows_have_fields(rows, COLUMN_GAP as nat, COLUMNS as nat);
        lemma_rows_hold_texts(rows, COLUMN_GAP as nat, COLUMNS as nat);
    }
}

/// The network device of a device listing, or `None` when the listing names
/// none. Lines that are no rows are passed over.
pub fn detect_network_device(listing: &str) -> (device: Option<String>)
    ensures
        device.deep_view() == device_of(listing@),
{
    let rows = parse_table(listing, HEADER_ROWS, COLUMN_GAP, COLUMNS);
    proof {
        let ls = lines(listing@);
        if HEADER_ROWS < ls.len() {
            lemma_rows_have_fields(
                ls.subrange(HEADER_ROWS as int, ls.len() as int),
                COLUMN_GAP as nat,
                COLUMNS as nat,
            );
        }
        assert(rows.deep_view().len() == rows.len());
    }
    if rows.len() == 0 {
        None
    } else {
        assert(rows.deep_view()[0] == rows[0].deep_view());
        assert(rows[0].deep_view().len() == rows[0].len());
        assert(rows[0].deep_view()[0] == rows[0][0]@);
        Some(rows[0][0].clone())
    }
}

/// The networks of a scan listing, in the order of the listing. A listing
/// without rows gives the empty list, which is no error.
pub fn detect_networks(listing: &str) -> (networks: Vec<String>)
    ensures
        networks.deep_view() == networks_of(listing@),
{
    let rows = parse_table(listing, HEADER_ROWS, COLUMN_GAP, COLUMNS);
    proof {
        let ls = lines(listing@);
        if HEADER_ROWS < ls.len() {
            lemma_rows_have_fields(
                ls.subrange(HEADER_ROWS as int, ls.len() as int),
                COLUMN_GAP as nat,
                COLUMNS as nat,
            );
        }
        assert(rows.deep_view().len() == rows.len());
    }
    let ghost all = listing_rows(listing@);
    let mut networks: Vec<String> = Vec::new();
    let mut i: usize = 0;
    while i < rows.len()
        invariant
            i <= rows.len(),
            rows.deep_view() == all,
            all.len() == rows.len(),
            forall|k: int| 0 <= k < all.len() ==> (#[trigger] all[k]).len() > 0,
            networks.deep_view() == first_fields(all.take(i as int)),
        decreases rows.len() - i,
    {
        assert(all[i as int] == rows[i as int].deep_view());
        assert(rows[i as int].deep_view().len() == rows[i as int].len());
        assert(rows[i as int].deep_view()[0] == rows[i as int][0]@);
        let ghost before = networks.deep_view();
        networks.push(rows[i][0].clone());
        assert(networks.deep_view() =~= before.push(all[i as int][0]));
        assert(first_fields(all.take(i + 1)) =~= first_fields(all.take(i as int)).push(
            all[i as int][0],
        ));
        i += 1;
    }
    assert(all.take(rows.len() as int) =~= all);
    networks
}

/// Whether the connectivity probe reached the outside.
pub fn check_connectivity(outcome: Outcome) -> (up: bool)
    ensures
        up == reachable(outcome),
{
    outcome == Outcome::Done
}

/// The call that joins the network named by `credential` through `device`,
/// with the credential's password.
pub fn connect(device: &str, credential: &Data) -> (action: Action)
    ensures
        action@ == connect_spec(device@, credential.name@, credential.password@),
{
    let args = vec![
        owned("station"),
        owned(device),
        owned("connect"),
        credential.name.clone(),
        credential.password.clone(),
    ];
    assert(args.deep_view() =~= seq![
        "station"@,
        device@,
        "connect"@,
        credential.name@,
        credential.password@,
    ]);
    Action::Run { program: owned("iwctl"), args }
}

/// What the end of the association call means for the caller.
pub fn connect_result(outcome: Outcome) -> (r: Result<(), ConnectError>)
    ensures
        r == connect_result_spec(outcome),
{
    if outcome == Outcome::NotStarted {
        Err(ConnectError::NotStarted)
    } else {
        Ok(())
    }
}

} // verus!
