//! What the commands print: the province listing, the catalogue scope and
//! the tally of a detail run.
use vstd::prelude::*;
use crate::model::Province;
use crate::store::{line_views, or_empty, text_or_empty};
use crate::text::{decimal, owned, pad_right, padded, push_char, push_decimal};

verus! {

/// A line of the province listing: UUID, code and name in columns.
pub open spec fn province_line(p: Province) -> Seq<char> {
    padded(p.id@, 40) + " "@ + padded(text_or_empty(p.code), 6) + " "@ + p.nama@
}

/// The province listing: a header, a rule of 80 dashes, a line per
/// province, the total and a hint on how to filter by province.
pub open spec fn province_listing_text(ps: Seq<Province>) -> Seq<Seq<char>> {
    seq![
        "\n"@ + padded("UUID"@, 40) + " "@ + padded("CODE"@, 6) + " "@ + "NAME"@,
        Seq::new(80, |i: int| '-'),
    ] + ps.map_values(|p: Province| province_line(p)) + seq![
        "\nTotal: "@ + decimal(ps.len()) + " provinces"@,
        "\nUsage: --provinces \"DKI JAKARTA,JAWA BARAT\""@,
    ]
}

fn province_line_text(p: &Province) -> (res: String)
    ensures
        res@ == province_line(*p),
{
    let mut line = pad_right(p.id.as_str(), 40);
    line.append(" ");
    let code = or_empty(&p.code);
    line.append(pad_right(code.as_str(), 6).as_str());
    line.append(" ");
    line.append(p.nama.as_str());
    line
}

/// The province listing, line by line.
pub fn province_listing(provinces: &[Province]) -> (res: Vec<String>)
    ensures
        line_views(res@) == province_listing_text(provinces@),
{
    let mut rule = String::new();
    for k in 0..80usize
        invariant
            rule@ == Seq::new(k as nat, |i: int| '-'),
    {
        push_char(&mut rule, '-');
        assert(rule@ =~= Seq::new((k + 1) as nat, |i: int| '-'));
    }
    let mut lines: Vec<String> = Vec::new();
    let mut header = owned("\n");
    header.append(pad_right("UUID", 40).as_str());
    header.append(" ");
    header.append(pad_right("CODE", 6).as_str());
    header.append(" ");
    header.append("NAME");
    lines.push(header);
    assert(rule@ =~= Seq::new(80, |i: int| '-'));
    lines.push(rule);
    let ghost head = line_views(lines@);
    assert(head =~= seq![
        "\n"@ + padded("UUID"@, 40) + " "@ + padded("CODE"@, 6) + " "@ + "NAME"@,
        Seq::new(80, |i: int| '-'),
    ]);
    for i in 0..provinces.len()
        invariant
            head == seq![
                "\n"@ + padded("UUID"@, 40) + " "@ + padded("CODE"@, 6) + " "@ + "NAME"@,
                Seq::new(80, |i: int| '-'),
            ],
            line_views(lines@) == head + provinces@.take(i as int).map_values(
                |p: Province| province_line(p),
            ),
    {
        let ghost before = lines@;
        let line = province_line_text(&provinces[i]);
        lines.push(line);
        assert(line_views(lines@) =~= line_views(before).push(line@));
        assert(provinces@.take(i + 1).map_values(|p: Province| province_line(p))
            =~= provinces@.take(i as int).map_values(|p: Province| province_line(p)).push(
            province_line(provinces@[i as int]),
        ));
    }
    assert(provinces@.take(provinces@.len() as int) == provinces@);
    let mut total = owned("\nTotal: ");
    push_decimal(&mut total, provinces.len() as u64);
    total.append(" provinces");
    lines.push(total);
    lines.push(owned("\nUsage: --provinces \"DKI JAKARTA,JAWA BARAT\""));
    assert(line_views(lines@) =~= province_listing_text(provinces@));
    lines
}

/// How the province filter of a catalogue run is described: `all` without
/// one, else the number of provinces selected.
pub fn province_scope_label(selected: usize) -> (res: String)
    ensures
        res@ == if selected == 0 {
            "all"@
        } else {
            decimal(selected as nat) + " selected"@
        },
{
    if selected == 0 {
        owned("all")
    } else {
        let mut s = String::new();
        push_decimal(&mut s, selected as u64);
        s.append(" selected");
        s
    }
}

/// How the detail of one lot ended.
#[derive(Clone, Copy, Debug, PartialEq, Eq, Structural)]
pub enum DetailOutcome {
    /// The detail could not be fetched.
    FetchFailed,
    /// The detail was stored; `geocoded` tells whether coordinates were found.
    Saved { geocoded: bool },
    /// The detail was fetched but storing it failed.
    StoreFailed { geocoded: bool },
}

/// Counts of a detail run.
#[derive(Clone, Copy, Debug, PartialEq, Eq, Structural)]
pub struct DetailTally {
    pub saved: usize,
    pub failed: usize,
    pub geocoded: usize,
}

/// The counts after recording one more outcome.
pub open spec fn tally_step(t: DetailTally, o: DetailOutcome) -> DetailTally {
    match o {
        DetailOutcome::FetchFailed => DetailTally { failed: (t.failed + 1) as usize, ..t },
        DetailOutcome::Saved { geocoded } => DetailTally {
            saved: (t.saved + 1) as usize,
            geocoded: if geocoded {
                (t.geocoded + 1) as usize
            } else {
                t.geocoded
            },
            ..t
        },
        DetailOutcome::StoreFailed { geocoded } => DetailTally {
            failed: (t.failed + 1) as usize,
            geocoded: if geocoded {
                (t.geocoded + 1) as usize
            } else {
                t.geocoded
            },
            ..t
        },
    }
}

/// The counts after recording `os` in turn from nothing.
pub open spec fn tally_of(os: Seq<DetailOutcome>) -> DetailTally
    decreases os.len(),
{
    if os.len() == 0 {
        DetailTally { saved: 0, failed: 0, geocoded: 0 }
    } else {
        tally_step(tally_of(os.drop_last()), os.last())
    }
}

impl DetailTally {
    /// No lot counted yet.
    pub fn new() -> (res: DetailTally)
        ensures
            res == tally_of(Seq::empty()),
    {
        DetailTally { saved: 0, failed: 0, geocoded: 0 }
    }

    /// Counts one more lot.
    pub fn record(&mut self, outcome: DetailOutcome)
        requires
            old(self).saved + old(self).failed < usize::MAX,
            old(self).geocoded <= old(self).saved + old(self).failed,
        ensures
            *final(self) == tally_step(*old(self), outcome),
    {
        match outcome {
            DetailOutcome::FetchFailed => {
                self.failed = self.failed + 1;
            },
            DetailOutcome::Saved { geocoded } => {
                self.saved = self.saved + 1;
                if geocoded {
                    self.geocoded = self.geocoded + 1;
                }
            },
            DetailOutcome::StoreFailed { geocoded } => {
                self.failed = self.failed + 1;
                if geocoded {
                    self.geocoded = self.geocoded + 1;
                }
            },
        }
    }

    /// The closing line of a detail run.
    pub fn summary(&self) -> (res: String)
        ensures
            res@ == "\u{2705} Details: "@ + decimal(self.saved as nat) + " saved, "@ + decimal(
                self.failed as nat,
            ) + " failed (Geocoded this run: "@ + decimal(self.geocoded as nat) + ")\n"@,
    {
        let mut s = owned("\u{2705} Details: ");
        push_decimal(&mut s, self.saved as u64);
        s.append(" saved, ");
        push_decimal(&mut s, self.failed as u64);
        s.append(" failed (Geocoded this run: ");
        push_decimal(&mut s, self.geocoded as u64);
        s.append(")\n");
        s
    }
}

/// Every lot of a run is counted once, as saved or as failed, and no more
/// lots are counted as geocoded than were counted.
pub proof fn law_tally_counts_every_lot(os: Seq<DetailOutcome>)
    requires
        os.len() < usize::MAX,
    ensures
        tally_of(os).saved + tally_of(os).failed == os.len(),
        tally_of(os).geocoded <= tally_of(os).saved + tally_of(os).failed,
        tally_of(os).saved == os.filter(|o: DetailOutcome| o is Saved).len(),
    decreases os.len(),
{
    reveal_with_fuel(Seq::<_>::filter, 1);
    if os.len() > 0 {
        law_tally_counts_every_lot(os.drop_last());
    }
}

} // verus!
