//! The decisions about a whole listing page.
use vstd::prelude::*;

use crate::listing::{entry_step, plan_entry, says_yes, DownloadOptions, EntryAction, Step};
use crate::scrape::{scrape_tables, scraped_tables, ListingRow};

verus! {

/// The decisions for one link of a row, paired with each image `alt` of the
/// row in turn; images without an `alt` and parent-folder or header rows give
/// none.
pub open spec fn link_steps(
    url: Seq<char>,
    file_path: Seq<char>,
    href: Seq<char>,
    alts: Seq<Option<Seq<char>>>,
    options: DownloadOptions,
) -> Seq<Step>
    decreases alts.len(),
{
    if alts.len() == 0 {
        Seq::<Step>::empty()
    } else {
        let before = link_steps(url, file_path, href, alts.drop_last(), options);
        match alts.last() {
            Some(alt) => match entry_step(url, file_path, href, alt, options) {
                Some(step) => before.push(step),
                None => before,
            },
            None => before,
        }
    }
}

/// The decisions for the links of a row, link after link; a link without a
/// target gives none.
pub open spec fn links_steps(
    url: Seq<char>,
    file_path: Seq<char>,
    links: Seq<Option<Seq<char>>>,
    alts: Seq<Option<Seq<char>>>,
    options: DownloadOptions,
) -> Seq<Step>
    decreases links.len(),
{
    if links.len() == 0 {
        Seq::<Step>::empty()
    } else {
        links_steps(url, file_path, links.drop_last(), alts, options) + match links.last() {
            Some(href) => link_steps(url, file_path, href, alts, options),
            None => Seq::<Step>::empty(),
        }
    }
}

/// The decisions for the rows of a table, row after row.
pub open spec fn rows_steps(
    url: Seq<char>,
    file_path: Seq<char>,
    rows: Seq<(Seq<Option<Seq<char>>>, Seq<Option<Seq<char>>>)>,
    options: DownloadOptions,
) -> Seq<Step>
    decreases rows.len(),
{
    if rows.len() == 0 {
        Seq::<Step>::empty()
    } else {
        rows_steps(url, file_path, rows.drop_last(), options) + links_steps(
            url,
            file_path,
            rows.last().0,
            rows.last().1,
            options,
        )
    }
}

/// The decisions for a page, table after table.
pub open spec fn page_steps(
    url: Seq<char>,
    file_path: Seq<char>,
    tables: Seq<Seq<(Seq<Option<Seq<char>>>, Seq<Option<Seq<char>>>)>>,
    options: DownloadOptions,
) -> Seq<Step>
    decreases tables.len(),
{
    if tables.len() == 0 {
        Seq::<Step>::empty()
    } else {
        page_steps(url, file_path, tables.drop_last(), options) + rows_steps(
            url,
            file_path,
            tables.last(),
            options,
        )
    }
}

/// Every link of every row has a target.
pub open spec fn links_present(
    tables: Seq<Seq<(Seq<Option<Seq<char>>>, Seq<Option<Seq<char>>>)>>,
) -> bool {
    forall|t: int, r: int, l: int|
        0 <= t < tables.len() && 0 <= r < tables[t].len() && 0 <= l < tables[t][r].0.len()
            ==> (#[trigger] tables[t][r].0[l]) is Some
}

fn plan_link(
    url: &str,
    file_path: &str,
    href: &str,
    alts: &Vec<Option<String>>,
    options: &DownloadOptions,
    plan: &mut Vec<EntryAction>,
)
    ensures
        final(plan).deep_view() =~= old(plan).deep_view() + link_steps(
            url@,
            file_path@,
            href@,
            alts.deep_view(),
            *options,
        ),
{
    let ghost start = plan.deep_view();
    let mut i: usize = 0;
    while i < alts.len()
        invariant
            i <= alts.len(),
            plan.deep_view() =~= start + link_steps(
                url@,
                file_path@,
                href@,
                alts.deep_view().take(i as int),
                *options,
            ),
        decreases alts.len() - i,
    {
        proof {
            assert(alts.deep_view().take(i + 1).drop_last() =~= alts.deep_view().take(i as int));
        }
        let ghost before = plan.deep_view();
        match &alts[i] {
            Some(alt) => {
                match plan_entry(url, file_path, href, alt.as_str(), options) {
                    Some(action) => {
                        plan.push(action);
                        assert(plan.deep_view() =~= before.push(action.deep_view()));
                    },
                    None => {},
                }
            },
            None => {},
        }
        i = i + 1;
    }
    assert(alts.deep_view().take(alts.len() as int) =~= alts.deep_view());
}

fn plan_row(
    url: &str,
    file_path: &str,
    row: &ListingRow,
    options: &DownloadOptions,
    plan: &mut Vec<EntryAction>,
)
    requires
        forall|l: int| 0 <= l < row.links.len() ==> (#[trigger] row.links.deep_view()[l]) is Some,
    ensures
        final(plan).deep_view() =~= old(plan).deep_view() + links_steps(
            url@,
            file_path@,
            row.links.deep_view(),
            row.image_alts.deep_view(),
            *options,
        ),
{
    let ghost start = plan.deep_view();
    let ghost links = row.links.deep_view();
    let ghost alts = row.image_alts.deep_view();
    let mut i: usize = 0;
    while i < row.links.len()
        invariant
            i <= row.links.len(),
            links == row.links.deep_view(),
            alts == row.image_alts.deep_view(),
            forall|l: int| 0 <= l < row.links.len() ==> (#[trigger] row.links.deep_view()[l]) is Some,
            plan.deep_view() =~= start + links_steps(
                url@,
                file_path@,
                links.take(i as int),
                alts,
                *options,
            ),
        decreases row.links.len() - i,
    {
        proof {
            assert(links.take(i + 1).drop_last() =~= links.take(i as int));
            assert(links[i as int] is Some);
        }
        match &row.links[i] {
            Some(href) => {
                plan_link(url, file_path, href.as_str(), &row.image_alts, options, plan);
            },
            None => {},
        }
        i = i + 1;
    }
    assert(links.take(row.links.len() as int) =~= links);
}

fn plan_rows(
    url: &str,
    file_path: &str,
    rows: &Vec<ListingRow>,
    options: &DownloadOptions,
    plan: &mut Vec<EntryAction>,
)
    requires
        forall|r: int, l: int|
            0 <= r < rows.len() && 0 <= l < rows.deep_view()[r].0.len()
                ==> (#[trigger] rows.deep_view()[r].0[l]) is Some,
    ensures
        final(plan).deep_view() =~= old(plan).deep_view() + rows_steps(
            url@,
            file_path@,
            rows.deep_view(),
            *options,
        ),
{
    let ghost start = plan.deep_view();
    let ghost all = rows.deep_view();
    let mut i: usize = 0;
    while i < rows.len()
        invariant
            i <= rows.len(),
            all == rows.deep_view(),
            forall|r: int, l: int|
                0 <= r < rows.len() && 0 <= l < all[r].0.len() ==> (#[trigger] all[r].0[l]) is Some,
            plan.deep_view() =~= start + rows_steps(url@, file_path@, all.take(i as int), *options),
        decreases rows.len() - i,
    {
        proof {
            assert(all.take(i + 1).drop_last() =~= all.take(i as int));
            assert(all[i as int] == rows[i as int].deep_view());
            assert forall|l: int| 0 <= l < rows[i as int].links.len() implies (#[trigger] rows[i as int].links.deep_view()[l]) is Some by {
                assert(all[i as int].0[l] is Some);
            }
        }
        plan_row(url, file_path, &rows[i], options, plan);
        i = i + 1;
    }
    assert(all.take(rows.len() as int) =~= all);
}

/// The decisions for a page whose tables have already been read: table after
/// table, row after row, each link of a row paired with each image of the row.
pub fn plan_tables(
    url: &str,
    file_path: &str,
    tables: &Vec<Vec<ListingRow>>,
    options: &DownloadOptions,
) -> (plan: Vec<EntryAction>)
    requires
        links_present(tables.deep_view()),
    ensures
        plan.deep_view() =~= page_steps(url@, file_path@, tables.deep_view(), *options),
{
    let mut plan: Vec<EntryAction> = Vec::new();
    let ghost all = tables.deep_view();
    let mut i: usize = 0;
    while i < tables.len()
        invariant
            i <= tables.len(),
            all == tables.deep_view(),
            links_present(all),
            plan.deep_view() =~= page_steps(url@, file_path@, all.take(i as int), *options),
        decreases tables.len() - i,
    {
        proof {
            assert(all.take(i + 1).drop_last() =~= all.take(i as int));
            assert(all[i as int] == tables[i as int].deep_view());
            assert forall|r: int, l: int|
                0 <= r < tables[i as int].len() && 0 <= l < tables[i as int].deep_view()[r].0.len()
                implies (#[trigger] tables[i as int].deep_view()[r].0[l]) is Some by {
                assert(all[i as int][r].0[l] is Some);
            }
        }
        plan_rows(url, file_path, &tables[i], options, &mut plan);
        i = i + 1;
    }
    assert(all.take(tables.len() as int) =~= all);
    plan
}

/// The address that a decision reports or acts on.
pub open spec fn step_link(step: Step) -> Seq<char> {
    match step {
        Step::Descend { link, .. } => link,
        Step::PassDirectory { link } => link,
        Step::FetchImage { link, .. } => link,
        Step::FetchDocument { link, .. } => link,
        Step::PassImage { link } => link,
        Step::PassDocument { link } => link,
        Step::Unrecognised { link, .. } => link,
    }
}

/// A decision that the user's answers allow: folders are entered only when
/// sub-folders are to be scanned, images fetched only when images are to be
/// downloaded, and plain files only when documents are.
pub open spec fn permitted(step: Step, options: DownloadOptions) -> bool {
    match step {
        Step::Descend { .. } => says_yes(options.scan_subfolders),
        Step::FetchImage { .. } => says_yes(options.download_imgs),
        Step::FetchDocument { .. } => says_yes(options.download_pdfs),
        _ => true,
    }
}

/// Every step of `steps` satisfies `p`.
pub open spec fn all_steps(steps: Seq<Step>, p: spec_fn(Step) -> bool) -> bool {
    forall|k: int| 0 <= k < steps.len() ==> p(#[trigger] steps[k])
}

proof fn lemma_link_steps_all(
    url: Seq<char>,
    file_path: Seq<char>,
    href: Seq<char>,
    alts: Seq<Option<Seq<char>>>,
    options: DownloadOptions,
    p: spec_fn(Step) -> bool,
)
    requires
        forall|alt: Seq<char>| #[trigger]
            entry_step(url, file_path, href, alt, options) matches Some(step) ==> p(step),
    ensures
        all_steps(link_steps(url, file_path, href, alts, options), p),
    decreases alts.len(),
{
    if alts.len() > 0 {
        lemma_link_steps_all(url, file_path, href, alts.drop_last(), options, p);
        if let Some(alt) = alts.last() {
            let _ = entry_step(url, file_path, href, alt, options);
        }
    }
}

proof fn lemma_links_steps_all(
    url: Seq<char>,
    file_path: Seq<char>,
    links: Seq<Option<Seq<char>>>,
    alts: Seq<Option<Seq<char>>>,
    options: DownloadOptions,
    p: spec_fn(Step) -> bool,
)
    requires
        forall|href: Seq<char>, alt: Seq<char>| #[trigger]
            entry_step(url, file_path, href, alt, options) matches Some(step) ==> p(step),
    ensures
        all_steps(links_steps(url, file_path, links, alts, options), p),
    decreases links.len(),
{
    if links.len() > 0 {
        lemma_links_steps_all(url, file_path, links.drop_last(), alts, options, p);
        if let Some(href) = links.last() {
            lemma_link_steps_all(url, file_path, href, alts, options, p);
        }
        let front = links_steps(url, file_path, links.drop_last(), alts, options);
        let whole = links_steps(url, file_path, links, alts, options);
        assert forall|k: int| 0 <= k < whole.len() implies p(#[trigger] whole[k]) by {
            if k < front.len() {
                assert(whole[k] == front[k]);
            }
        }
    }
}

proof fn lemma_rows_steps_all(
    url: Seq<char>,
    file_path: Seq<char>,
    rows: Seq<(Seq<Option<Seq<char>>>, Seq<Option<Seq<char>>>)>,
    options: DownloadOptions,
    p: spec_fn(Step) -> bool,
)
    requires
        forall|href: Seq<char>, alt: Seq<char>| #[trigger]
            entry_step(url, file_path, href, alt, options) matches Some(step) ==> p(step),
    ensures
        all_steps(rows_steps(url, file_path, rows, options), p),
    decreases rows.len(),
{
    if rows.len() > 0 {
        lemma_rows_steps_all(url, file_path, rows.drop_last(), options, p);
        lemma_links_steps_all(url, file_path, rows.last().0, rows.last().1, options, p);
        let front = rows_steps(url, file_path, rows.drop_last(), options);
        let whole = rows_steps(url, file_path, rows, options);
        assert forall|k: int| 0 <= k < whole.len() implies p(#[trigger] whole[k]) by {
            if k < front.len() {
                assert(whole[k] == front[k]);
            }
        }
    }
}

proof fn lemma_page_steps_all(
    url: Seq<char>,
    file_path: Seq<char>,
    tables: Seq<Seq<(Seq<Option<Seq<char>>>, Seq<Option<Seq<char>>>)>>,
    options: DownloadOptions,
    p: spec_fn(Step) -> bool,
)
    requires
        forall|href: Seq<char>, alt: Seq<char>| #[trigger]
            entry_step(url, file_path, href, alt, options) matches Some(step) ==> p(step),
    ensures
        all_steps(page_steps(url, file_path, tables, options), p),
    decreases tables.len(),
{
    if tables.len() > 0 {
        lemma_page_steps_all(url, file_path, tables.drop_last(), options, p);
        lemma_rows_steps_all(url, file_path, tables.last(), options, p);
        let front = page_steps(url, file_path, tables.drop_last(), options);
        let whole = page_steps(url, file_path, tables, options);
        assert forall|k: int| 0 <= k < whole.len() implies p(#[trigger] whole[k]) by {
            if k < front.len() {
                assert(whole[k] == front[k]);
            }
        }
    }
}

/// Whatever the page holds, its plan enters sub-folders only when the user
/// asked for sub-folders to be scanned, and downloads images or documents
/// only when the user asked for them.
pub proof fn law_page_steps_permitted(
    url: Seq<char>,
    file_path: Seq<char>,
    tables: Seq<Seq<(Seq<Option<Seq<char>>>, Seq<Option<Seq<char>>>)>>,
    options: DownloadOptions,
)
    ensures
        forall|k: int|
            0 <= k < page_steps(url, file_path, tables, options).len() ==> permitted(
                #[trigger] page_steps(url, file_path, tables, options)[k],
                options,
            ),
{
    let p = |step: Step| permitted(step, options);
    lemma_page_steps_all(url, file_path, tables, options, p);
    let steps = page_steps(url, file_path, tables, options);
    assert forall|k: int| 0 <= k < steps.len() implies permitted(#[trigger] steps[k], options) by {
        assert(p(steps[k]));
    }
}

/// Every address that a page's plan reports or acts on is the page's own
/// address followed by the target of one of its links.
pub proof fn law_page_links_extend_url(
    url: Seq<char>,
    file_path: Seq<char>,
    tables: Seq<Seq<(Seq<Option<Seq<char>>>, Seq<Option<Seq<char>>>)>>,
    options: DownloadOptions,
)
    ensures
        forall|k: int|
            0 <= k < page_steps(url, file_path, tables, options).len() ==> {
                let link = step_link(#[trigger] page_steps(url, file_path, tables, options)[k]);
                url.len() <= link.len() && link.take(url.len() as int) == url
            },
{
    let p = |step: Step| url.len() <= step_link(step).len() && step_link(step).take(url.len() as int) == url;
    assert forall|href: Seq<char>, alt: Seq<char>|
        (#[trigger] entry_step(url, file_path, href, alt, options) matches Some(step) ==> p(step)) by {
        assert((url + href).take(url.len() as int) =~= url);
    }
    lemma_page_steps_all(url, file_path, tables, options, p);
    let steps = page_steps(url, file_path, tables, options);
    assert forall|k: int| 0 <= k < steps.len() implies {
        let link = step_link(#[trigger] steps[k]);
        url.len() <= link.len() && link.take(url.len() as int) == url
    } by {
        assert(p(steps[k]));
    }
}

/// The plan of a page whose tables are those of `first` followed by those of
/// `second` is the plan of `first` followed by the plan of `second`: tables
/// are decided on one after the other, each on its own.
pub proof fn law_page_steps_concat(
    url: Seq<char>,
    file_path: Seq<char>,
    first: Seq<Seq<(Seq<Option<Seq<char>>>, Seq<Option<Seq<char>>>)>>,
    second: Seq<Seq<(Seq<Option<Seq<char>>>, Seq<Option<Seq<char>>>)>>,
    options: DownloadOptions,
)
    ensures
        page_steps(url, file_path, first + second, options) =~= page_steps(
            url,
            file_path,
            first,
            options,
        ) + page_steps(url, file_path, second, options),
    decreases second.len(),
{
    if second.len() == 0 {
        assert(first + second =~= first);
    } else {
        assert((first + second).drop_last() =~= first + second.drop_last());
        assert((first + second).last() == second.last());
        law_page_steps_concat(url, file_path, first, second.drop_last(), options);
    }
}

/// One image of a row, paired with a link, gives the decision about that
/// entry where there is one, and nothing where the image has no `alt`.
pub proof fn law_link_steps_single(
    url: Seq<char>,
    file_path: Seq<char>,
    href: Seq<char>,
    alt: Option<Seq<char>>,
    options: DownloadOptions,
)
    ensures
        link_steps(url, file_path, href, seq![alt], options) == (match alt {
            Some(a) => match entry_step(url, file_path, href, a, options) {
                Some(step) => seq![step],
                None => Seq::<Step>::empty(),
            },
            None => Seq::<Step>::empty(),
        }),
{
    let alts = seq![alt];
    assert(alts.drop_last() =~= Seq::<Option<Seq<char>>>::empty());
    assert(alts.last() == alt);
    assert(link_steps(url, file_path, href, alts.drop_last(), options) == Seq::<Step>::empty());
    if let Some(a) = alt {
        if let Some(step) = entry_step(url, file_path, href, a, options) {
            assert(Seq::<Step>::empty().push(step) =~= seq![step]);
        }
    }
}

/// A link paired with the images `first` followed by `second` gives its
/// decisions for `first` followed by those for `second`.
pub proof fn law_link_steps_concat(
    url: Seq<char>,
    file_path: Seq<char>,
    href: Seq<char>,
    first: Seq<Option<Seq<char>>>,
    second: Seq<Option<Seq<char>>>,
    options: DownloadOptions,
)
    ensures
        link_steps(url, file_path, href, first + second, options) =~= link_steps(
            url,
            file_path,
            href,
            first,
            options,
        ) + link_steps(url, file_path, href, second, options),
    decreases second.len(),
{
    if second.len() == 0 {
        assert(first + second =~= first);
    } else {
        assert((first + second).drop_last() =~= first + second.drop_last());
        assert((first + second).last() == second.last());
        law_link_steps_concat(url, file_path, href, first, second.drop_last(), options);
    }
}

/// The only link of a row gives its decisions paired with each image of the
/// row; a link without a target gives none.
pub proof fn law_links_steps_single(
    url: Seq<char>,
    file_path: Seq<char>,
    link: Option<Seq<char>>,
    alts: Seq<Option<Seq<char>>>,
    options: DownloadOptions,
)
    ensures
        links_steps(url, file_path, seq![link], alts, options) =~= (match link {
            Some(href) => link_steps(url, file_path, href, alts, options),
            None => Seq::<Step>::empty(),
        }),
{
    let links = seq![link];
    assert(links.drop_last() =~= Seq::<Option<Seq<char>>>::empty());
    assert(links.last() == link);
    assert(links_steps(url, file_path, links.drop_last(), alts, options) == Seq::<Step>::empty());
}

/// The links `first` followed by `second` give the decisions for `first`
/// followed by those for `second`.
pub proof fn law_links_steps_concat(
    url: Seq<char>,
    file_path: Seq<char>,
    first: Seq<Option<Seq<char>>>,
    second: Seq<Option<Seq<char>>>,
    alts: Seq<Option<Seq<char>>>,
    options: DownloadOptions,
)
    ensures
        links_steps(url, file_path, first + second, alts, options) =~= links_steps(
            url,
            file_path,
            first,
            alts,
            options,
        ) + links_steps(url, file_path, second, alts, options),
    decreases second.len(),
{
    if second.len() == 0 {
        assert(first + second =~= first);
    } else {
        assert((first + second).drop_last() =~= first + second.drop_last());
        assert((first + second).last() == second.last());
        law_links_steps_concat(url, file_path, first, second.drop_last(), alts, options);
    }
}

/// A table of one row gives that row's decisions: its links, each paired
/// with each of its images.
pub proof fn law_rows_steps_single(
    url: Seq<char>,
    file_path: Seq<char>,
    row: (Seq<Option<Seq<char>>>, Seq<Option<Seq<char>>>),
    options: DownloadOptions,
)
    ensures
        rows_steps(url, file_path, seq![row], options) =~= links_steps(
            url,
            file_path,
            row.0,
            row.1,
            options,
        ),
{
    let rows = seq![row];
    assert(rows.drop_last() =~= Seq::<(Seq<Option<Seq<char>>>, Seq<Option<Seq<char>>>)>::empty());
    assert(rows.last() == row);
    assert(rows_steps(url, file_path, rows.drop_last(), options) == Seq::<Step>::empty());
}

/// The rows `first` followed by `second` give the decisions for `first`
/// followed by those for `second`: every row is decided on, a row without
/// links among them.
pub proof fn law_rows_steps_concat(
    url: Seq<char>,
    file_path: Seq<char>,
    first: Seq<(Seq<Option<Seq<char>>>, Seq<Option<Seq<char>>>)>,
    second: Seq<(Seq<Option<Seq<char>>>, Seq<Option<Seq<char>>>)>,
    options: DownloadOptions,
)
    ensures
        rows_steps(url, file_path, first + second, options) =~= rows_steps(
            url,
            file_path,
            first,
            options,
        ) + rows_steps(url, file_path, second, options),
    decreases second.len(),
{
    if second.len() == 0 {
        assert(first + second =~= first);
    } else {
        assert((first + second).drop_last() =~= first + second.drop_last());
        assert((first + second).last() == second.last());
        law_rows_steps_concat(url, file_path, first, second.drop_last(), options);
    }
}

/// A row without links gives no decisions.
pub proof fn law_linkless_row_gives_nothing(
    url: Seq<char>,
    file_path: Seq<char>,
    alts: Seq<Option<Seq<char>>>,
    options: DownloadOptions,
)
    ensures
        links_steps(url, file_path, Seq::<Option<Seq<char>>>::empty(), alts, options).len() == 0,
{
}

/// A page of one table gives that table's decisions.
pub proof fn law_page_steps_single(
    url: Seq<char>,
    file_path: Seq<char>,
    table: Seq<(Seq<Option<Seq<char>>>, Seq<Option<Seq<char>>>)>,
    options: DownloadOptions,
)
    ensures
        page_steps(url, file_path, seq![table], options) =~= rows_steps(url, file_path, table, options),
{
    let tables = seq![table];
    assert(tables.drop_last() =~= Seq::<Seq<(Seq<Option<Seq<char>>>, Seq<Option<Seq<char>>>)>>::empty());
    assert(tables.last() == table);
    assert(page_steps(url, file_path, tables.drop_last(), options) == Seq::<Step>::empty());
}

/// The page's tables as `scraper` reads them with the selectors `table`,
/// `tr`, `a[href]` and `img`, and the attributes `href` and `alt`.
pub open spec fn listing_tables(html: Seq<char>) -> Option<
    Seq<Seq<(Seq<Option<Seq<char>>>, Seq<Option<Seq<char>>>)>>,
> {
    scraped_tables(html, "table"@, "tr"@, "a[href]"@, "img"@, "href"@, "alt"@)
}

/// Reads the tables of the listing page `html` (found at `url`, its files
/// going under `file_path`) and decides what to do with each of its entries.
pub fn plan_page(url: &str, file_path: &str, html: &str, options: &DownloadOptions) -> (plan: Vec<
    EntryAction,
>)
    ensures
        listing_tables(html@) is Some,
        links_present(listing_tables(html@).unwrap()),
        plan.deep_view() == page_steps(url@, file_path@, listing_tables(html@).unwrap(), *options),
{
    match scrape_tables(html, "table", "tr", "a[href]", "img", "href", "alt") {
        None => {
            proof {
                assert(false);
            }
            Vec::new()
        },
        Some(tables) => {
            proof {
                let found = tables.deep_view();
                assert forall|t: int, r: int, l: int|
                    0 <= t < found.len() && 0 <= r < found[t].len() && 0 <= l < found[t][r].0.len()
                    implies (#[trigger] found[t][r].0[l]) is Some by {
                    assert(found[t] == tables[t].deep_view());
                    assert(found[t][r] == tables[t][r].deep_view());
                    assert(tables[t][r].links.deep_view()[l] is Some);
                }
            }
            plan_tables(url, file_path, &tables, options)
        },
    }
}

} // verus!
