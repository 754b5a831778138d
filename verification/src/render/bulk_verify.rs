//! Embeds for the bulk-verify flow: the resume prompt, the preview, the progress bar,
//! the per-member wizard card and the final summary.

use vstd::prelude::*;

use crate::ids::DiscordUserId;
use crate::render::colours::{COLOR_AMBER, COLOR_BLURPLE, COLOR_GREEN};
use crate::role::Role;
use crate::store::{BulkScope, MissCounts, PreviewTally};
use crate::text::number;
use crate::ui::{join_lines, Embed};

#[allow(unused_imports)]
use crate::text::decimal;
#[allow(unused_imports)]
use crate::ui::{lines_text, views, EmbedView};

verus! {

/// The scope in words.
pub open spec fn scope_words(scope: BulkScope) -> Seq<char> {
    match scope {
        BulkScope::UnmanagedOnly => "Scope: unmanaged members only"@,
        BulkScope::WholeGuild => "Scope: the whole server"@,
    }
}

fn scope_line(scope: BulkScope) -> (r: &'static str)
    ensures
        r@ == scope_words(scope),
{
    match scope {
        BulkScope::UnmanagedOnly => "Scope: unmanaged members only",
        BulkScope::WholeGuild => "Scope: the whole server",
    }
}

/// The plural ending for a count.
pub open spec fn plural(n: int) -> Seq<char> {
    if n == 1 {
        ""@
    } else {
        "s"@
    }
}

fn plural_of(n: usize) -> (r: &'static str)
    ensures
        r@ == plural(n as int),
{
    if n == 1 {
        ""
    } else {
        "s"
    }
}

/// The resume prompt: scope, who started the run, and how much of it is left.
pub open spec fn resume_view(
    scope: BulkScope,
    started_by: DiscordUserId,
    counts: MissCounts,
) -> EmbedView {
    EmbedView::empty().colour(COLOR_BLURPLE).title(
        "Bulk verify \u{2022} In progress"@,
    ).description(
        scope_words(scope) + "\nStarted by <@"@ + decimal(started_by.0 as nat) + ">\n\n"@ + decimal(
            counts.pending as nat,
        ) + " member"@ + plural(counts.pending as int) + " still pending review ("@ + decimal(
            counts.verified as nat,
        ) + " verified, "@ + decimal(counts.skipped as nat)
            + " skipped).\nYou can continue where this left off or start over."@,
    )
}

/// Build the resume-session embed shown when an in-progress session already exists.
pub fn resume_embed(scope: BulkScope, started_by: DiscordUserId, counts: MissCounts) -> (r: Embed)
    ensures
        r@ == resume_view(scope, started_by, counts),
{
    let desc = scope_line(scope).to_owned().concat("\nStarted by <@").concat(
        number(started_by.0).as_str(),
    ).concat(">\n\n").concat(number(counts.pending as u64).as_str()).concat(" member").concat(
        plural_of(counts.pending as usize),
    ).concat(" still pending review (").concat(number(counts.verified as u64).as_str()).concat(
        " verified, ",
    ).concat(number(counts.skipped as u64).as_str()).concat(
        " skipped).\nYou can continue where this left off or start over.",
    );
    Embed::new().colour(COLOR_BLURPLE).title("Bulk verify \u{2022} In progress".to_owned()).description(
        desc,
    )
}

/// One line per role with a non-zero count, in order.
pub open spec fn role_lines(counts: Seq<(Role, usize)>) -> Seq<Seq<char>>
    decreases counts.len(),
{
    if counts.len() == 0 {
        Seq::empty()
    } else {
        let before = role_lines(counts.drop_last());
        let (role, count) = counts.last();
        if count > 0 {
            before.push(role.words() + ": "@ + decimal(count as nat))
        } else {
            before
        }
    }
}

fn push_role_lines(lines: &mut Vec<String>, counts: &Vec<(Role, usize)>)
    ensures
        views(final(lines)@) == views(old(lines)@) + role_lines(counts@),
{
    let ghost start = views(lines@);
    let mut i: usize = 0;
    assert(counts@.take(0) =~= Seq::empty());
    assert(start + role_lines(counts@.take(0)) =~= start);
    while i < counts.len()
        invariant
            i <= counts.len(),
            views(lines@) == start + role_lines(counts@.take(i as int)),
        decreases counts.len() - i,
    {
        let ghost pre = counts@.take(i as int);
        let ghost before = views(lines@);
        proof {
            assert(counts@.take(i + 1).drop_last() =~= pre);
        }
        let (role, count): (Role, usize) = counts[i];
        if count > 0 {
            let line = role.as_str().to_owned().concat(": ").concat(number(count as u64).as_str());
            lines.push(line);
            assert(views(lines@) =~= before.push(line@));
            assert(start + role_lines(pre).push(line@) =~= (start + role_lines(pre)).push(line@));
        }
        i += 1;
    }
    assert(counts@.take(counts@.len() as int) =~= counts@);
}

/// The lines of the preview.
pub open spec fn preview_lines(scope: BulkScope, tally: PreviewTally) -> Seq<Seq<char>> {
    let head = seq![
        scope_words(scope),
        "Scanned: "@ + decimal(tally.scanned as nat) + " member"@ + plural(tally.scanned as int),
        Seq::<char>::empty(),
    ] + role_lines(tally.matched@);
    let unchanged = if tally.unchanged > 0 {
        seq!["Already in the right role: "@ + decimal(tally.unchanged as nat)]
    } else {
        seq![]
    };
    let misses = seq!["Not matched (wizard queue): "@ + decimal(tally.misses as nat)];
    let conflicts = if tally.conflicts > 0 {
        seq![
            "Conflicts: "@ + decimal(tally.conflicts as nat)
                + " \u{2014} resolve these with /verify"@,
        ]
    } else {
        seq![]
    };
    head + unchanged + misses + conflicts
}

/// The preview: amber when anything is left to resolve by hand, else green.
pub open spec fn preview_view(scope: BulkScope, tally: PreviewTally) -> EmbedView {
    EmbedView::empty().colour(
        if tally.misses > 0 || tally.conflicts > 0 {
            COLOR_AMBER
        } else {
            COLOR_GREEN
        },
    ).title("Bulk verify \u{2022} Preview"@).description(lines_text(preview_lines(scope, tally)))
}

fn push_line(lines: &mut Vec<String>, line: String)
    ensures
        views(final(lines)@) == views(old(lines)@).push(line@),
        views(final(lines)@) == views(old(lines)@) + seq![line@],
{
    lines.push(line);
    assert(views(lines@) =~= views(old(lines)@).push(line@));
    assert(views(lines@) =~= views(old(lines)@) + seq![line@]);
}

/// Build the preview shown before the moderator confirms a run. Roles with no change
/// are left out, members already in the right role are summed up on a line of their own.
pub fn preview_embed(scope: BulkScope, tally: &PreviewTally) -> (r: Embed)
    ensures
        r@ == preview_view(scope, *tally),
{
    let mut lines: Vec<String> = Vec::new();
    push_line(&mut lines, scope_line(scope).to_owned());
    push_line(
        &mut lines,
        "Scanned: ".to_owned().concat(number(tally.scanned as u64).as_str()).concat(
            " member",
        ).concat(plural_of(tally.scanned)),
    );
    push_line(&mut lines, String::new());
    push_role_lines(&mut lines, &tally.matched);
    if tally.unchanged > 0 {
        push_line(
            &mut lines,
            "Already in the right role: ".to_owned().concat(
                number(tally.unchanged as u64).as_str(),
            ),
        );
    }
    push_line(
        &mut lines,
        "Not matched (wizard queue): ".to_owned().concat(number(tally.misses as u64).as_str()),
    );
    if tally.conflicts > 0 {
        push_line(
            &mut lines,
            "Conflicts: ".to_owned().concat(number(tally.conflicts as u64).as_str()).concat(
                " \u{2014} resolve these with /verify",
            ),
        );
    }
    assert(views(lines@) =~= preview_lines(scope, *tally));
    let color: u32 = if tally.misses > 0 || tally.conflicts > 0 {
        COLOR_AMBER
    } else {
        COLOR_GREEN
    };
    Embed::new().colour(color).title("Bulk verify \u{2022} Preview".to_owned()).description(
        join_lines(&lines),
    )
}

/// The progress bar.
pub open spec fn progress_view(done: int, total: int) -> EmbedView {
    EmbedView::empty().colour(COLOR_BLURPLE).title("Bulk verify \u{2022} Applying"@).description(
        decimal(done as nat) + " / "@ + decimal(total as nat),
    )
}

/// Build the progress embed shown while roles are being applied.
pub fn progress_embed(done: usize, total: usize) -> (r: Embed)
    ensures
        r@ == progress_view(done as int, total as int),
{
    Embed::new().colour(COLOR_BLURPLE).title("Bulk verify \u{2022} Applying".to_owned()).description(
        number(done as u64).concat(" / ").concat(number(total as u64).as_str()),
    )
}

/// The wizard card of one unmatched member.
pub open spec fn wizard_view(
    display_name: Seq<char>,
    handle: Seq<char>,
    avatar_url: Seq<char>,
    position: int,
    total: int,
) -> EmbedView {
    EmbedView::empty().colour(COLOR_AMBER).title(
        "Bulk verify \u{2022} "@ + decimal(position as nat) + " of "@ + decimal(total as nat),
    ).thumbnail(avatar_url).description(
        "`@"@ + handle + "`\n\n**"@ + display_name
            + "** is not matched in our records.\nUse the buttons below to verify them by email or skip."@,
    )
}

/// Build the wizard embed for one unmatched member, with their place in the queue.
pub fn wizard_embed(
    display_name: &str,
    handle: &str,
    avatar_url: &str,
    position: u64,
    total: u64,
) -> (r: Embed)
    ensures
        r@ == wizard_view(display_name@, handle@, avatar_url@, position as int, total as int),
{
    Embed::new().colour(COLOR_AMBER).title(
        "Bulk verify \u{2022} ".to_owned().concat(number(position).as_str()).concat(" of ").concat(
            number(total).as_str(),
        ),
    ).thumbnail(avatar_url.to_owned()).description(
        "`@".to_owned().concat(handle).concat("`\n\n**").concat(display_name).concat(
            "** is not matched in our records.\nUse the buttons below to verify them by email or skip.",
        ),
    )
}

/// The lines of the summary.
pub open spec fn summary_lines(assigned: Seq<(Role, usize)>, counts: MissCounts) -> Seq<Seq<char>> {
    let reviewed = role_lines(assigned) + seq![
        Seq::<char>::empty(),
        "Verified from queue: "@ + decimal(counts.verified as nat),
        "Skipped: "@ + decimal(counts.skipped as nat),
    ];
    if counts.pending > 0 {
        reviewed.push("Still pending: "@ + decimal(counts.pending as nat))
    } else {
        reviewed
    }
}

/// The summary: amber while anything is still pending, else green.
pub open spec fn summary_view(assigned: Seq<(Role, usize)>, counts: MissCounts) -> EmbedView {
    EmbedView::empty().colour(
        if counts.pending > 0 {
            COLOR_AMBER
        } else {
            COLOR_GREEN
        },
    ).title("Bulk verify \u{2022} Complete"@).description(lines_text(summary_lines(assigned, counts)))
}

/// Build the summary shown when a session completes.
pub fn summary_embed(assigned: &Vec<(Role, usize)>, counts: MissCounts) -> (r: Embed)
    ensures
        r@ == summary_view(assigned@, counts),
{
    let mut lines: Vec<String> = Vec::new();
    push_role_lines(&mut lines, assigned);
    push_line(&mut lines, String::new());
    push_line(
        &mut lines,
        "Verified from queue: ".to_owned().concat(number(counts.verified as u64).as_str()),
    );
    push_line(&mut lines, "Skipped: ".to_owned().concat(number(counts.skipped as u64).as_str()));
    if counts.pending > 0 {
        push_line(
            &mut lines,
            "Still pending: ".to_owned().concat(number(counts.pending as u64).as_str()),
        );
    }
    assert(views(lines@) =~= summary_lines(assigned@, counts));
    let color: u32 = if counts.pending > 0 {
        COLOR_AMBER
    } else {
        COLOR_GREEN
    };
    Embed::new().colour(color).title("Bulk verify \u{2022} Complete".to_owned()).description(
        join_lines(&lines),
    )
}

/// The two scopes read differently, each as what it is.
pub proof fn law_scopes_read_as_what_they_are()
    ensures
        scope_words(BulkScope::UnmanagedOnly) == "Scope: unmanaged members only"@,
        scope_words(BulkScope::WholeGuild) == "Scope: the whole server"@,
        scope_words(BulkScope::UnmanagedOnly) != scope_words(BulkScope::WholeGuild),
{
    reveal_strlit("Scope: unmanaged members only");
    reveal_strlit("Scope: the whole server");
    assert("Scope: unmanaged members only"@[7] == 'u');
    assert("Scope: the whole server"@[7] == 't');
}

/// The resume prompt tells the scope, who began, and each count in its place.
pub proof fn law_a_resume_tells_what_is_left(
    scope: BulkScope,
    started_by: DiscordUserId,
    counts: MissCounts,
)
    ensures
        resume_view(scope, started_by, counts).description == Some(
            scope_words(scope) + "\nStarted by <@"@ + decimal(started_by.0 as nat) + ">\n\n"@
                + decimal(counts.pending as nat) + " member"@ + (if counts.pending == 1 {
                ""@
            } else {
                "s"@
            }) + " still pending review ("@ + decimal(counts.verified as nat) + " verified, "@
                + decimal(counts.skipped as nat)
                + " skipped).\nYou can continue where this left off or start over."@,
        ),
        resume_view(scope, started_by, counts).colour == Some(COLOR_BLURPLE),
        resume_view(scope, started_by, counts).title == Some(
            "Bulk verify \u{2022} In progress"@,
        ),
{
}

/// Each role that anyone got has a line with its name and its number, in order, and a role
/// that nobody got has none.
pub proof fn law_roles_are_counted_by_name(counts: Seq<(Role, usize)>, role: Role, n: usize)
    ensures
        role_lines(Seq::empty()) == Seq::<Seq<char>>::empty(),
        n == 0 ==> role_lines(counts.push((role, n))) == role_lines(counts),
        n > 0 ==> role_lines(counts.push((role, n))) == role_lines(counts).push(
            (match role {
                Role::Member => "Member"@,
                Role::DuesExpired => "Dues Expired"@,
                Role::Unverified => "Unverified"@,
            }) + ": "@ + decimal(n as nat),
        ),
{
    assert(counts.push((role, n)).drop_last() =~= counts);
}

/// The preview tells the scope, how many were scanned, the roles that would be given, how
/// many stay as they are, how many are left for the queue and how many conflict; it is green
/// only where nothing is left to do by hand.
pub proof fn law_a_preview_tells_what_would_change(scope: BulkScope, tally: PreviewTally)
    ensures
        ({
            let lines = preview_lines(scope, tally);
            let roles = role_lines(tally.matched@);
            let at = 3 + roles.len() as int;
            let kept: int = if tally.unchanged > 0 {
                1
            } else {
                0
            };
            &&& preview_view(scope, tally).title == Some("Bulk verify \u{2022} Preview"@)
            &&& preview_view(scope, tally).description == Some(lines_text(lines))
            &&& preview_view(scope, tally).colour == Some(
                if tally.misses == 0 && tally.conflicts == 0 {
                    COLOR_GREEN
                } else {
                    COLOR_AMBER
                },
            )
            &&& lines.len() == at + kept + 1 + if tally.conflicts > 0 {
                1int
            } else {
                0int
            }
            &&& lines[0] == scope_words(scope)
            &&& lines[1] == "Scanned: "@ + decimal(tally.scanned as nat) + " member"@ + (
            if tally.scanned == 1 {
                ""@
            } else {
                "s"@
            })
            &&& lines[2].len() == 0
            &&& lines.subrange(3, at) =~= roles
            &&& tally.unchanged > 0 ==> lines[at] == "Already in the right role: "@ + decimal(
                tally.unchanged as nat,
            )
            &&& lines[at + kept] == "Not matched (wizard queue): "@ + decimal(tally.misses as nat)
            &&& tally.conflicts > 0 ==> lines[at + kept + 1] == "Conflicts: "@ + decimal(
                tally.conflicts as nat,
            ) + " \u{2014} resolve these with /verify"@
        }),
{
}

/// Progress is how many of how many, and the wizard shows the member, their handle and
/// picture, and their place in the queue.
pub proof fn law_progress_and_wizard_tell_the_place(
    done: int,
    total: int,
    display_name: Seq<char>,
    handle: Seq<char>,
    avatar_url: Seq<char>,
)
    ensures
        progress_view(done, total).title == Some("Bulk verify \u{2022} Applying"@),
        progress_view(done, total).colour == Some(COLOR_BLURPLE),
        progress_view(done, total).description == Some(
            decimal(done as nat) + " / "@ + decimal(total as nat),
        ),
        ({
            let card = wizard_view(display_name, handle, avatar_url, done, total);
            &&& card.title == Some(
                "Bulk verify \u{2022} "@ + decimal(done as nat) + " of "@ + decimal(total as nat),
            )
            &&& card.colour == Some(COLOR_AMBER)
            &&& card.thumbnail == Some(avatar_url)
            &&& card.description == Some(
                "`@"@ + handle + "`\n\n**"@ + display_name
                    + "** is not matched in our records.\nUse the buttons below to verify them by email or skip."@,
            )
        }),
{
}

/// The summary tells the roles given, and how many were verified and skipped by hand, and how
/// many are still pending where any are; it is green only where none are.
pub proof fn law_a_summary_tells_what_was_done(assigned: Seq<(Role, usize)>, counts: MissCounts)
    ensures
        ({
            let lines = summary_lines(assigned, counts);
            let at = role_lines(assigned).len() as int;
            &&& summary_view(assigned, counts).title == Some("Bulk verify \u{2022} Complete"@)
            &&& summary_view(assigned, counts).description == Some(lines_text(lines))
            &&& summary_view(assigned, counts).colour == Some(
                if counts.pending == 0 {
                    COLOR_GREEN
                } else {
                    COLOR_AMBER
                },
            )
            &&& lines.len() == at + 3 + if counts.pending > 0 {
                1int
            } else {
                0int
            }
            &&& lines.subrange(0, at) =~= role_lines(assigned)
            &&& lines[at + 1] == "Verified from queue: "@ + decimal(counts.verified as nat)
            &&& lines[at + 2] == "Skipped: "@ + decimal(counts.skipped as nat)
            &&& counts.pending > 0 ==> lines[at + 3] == "Still pending: "@ + decimal(
                counts.pending as nat,
            )
        }),
{
}

} // verus!
