//! What holds of the engine as a whole, proved from the contracts of its parts.

use vstd::prelude::*;
use crate::copy::{
    clear_requests, is_first_of_its_type, is_text_alias, plain_text, prepares, stages,
    staged_lookup, targets_spec, ClipboardType, DataPaths, DataSourceError, MimeSource, MimeType,
    Options, PreparedCopy, SendAction, ServeRequests, Source, State,
};
use crate::common::{ext_interface, has_interface, manager_for, zwlr_interface, Global};
use crate::data_control::{Device, Offer, Request, Source as DataSource};
use crate::paste;
use crate::search::{
    first_at, first_where, has_key, is_key, lemma_first_where_absent, lemma_first_where_found,
    lemma_first_where_is_first, lemma_some_first, names_text, texts,
};
use crate::utils::{is_text_spec, text_prefix};

verus! {

/// What each device holds as its two selections, as far as this client set them.
pub struct Selections {
    pub regular: Map<Device, Option<DataSource>>,
    pub primary: Map<Device, Option<DataSource>>,
}

/// The selections after one request was carried out.
pub open spec fn apply(selections: Selections, request: Request) -> Selections {
    match request {
        Request::SetSelection { device, source } => Selections {
            regular: selections.regular.insert(device, source),
            ..selections
        },
        Request::SetPrimarySelection { device, source } => Selections {
            primary: selections.primary.insert(device, source),
            ..selections
        },
        _ => selections,
    }
}

/// The selections after a list of requests was carried out in order.
pub open spec fn apply_all(selections: Selections, requests: Seq<Request>) -> Selections
    decreases requests.len(),
{
    if requests.len() == 0 {
        selections
    } else {
        apply(apply_all(selections, requests.drop_last()), requests.last())
    }
}

/// Whether a device holds no selection of either kind.
pub open spec fn is_cleared(selections: Selections, device: Device) -> bool {
    &&& selections.regular.contains_key(device) && selections.regular[device] is None
    &&& selections.primary.contains_key(device) && selections.primary[device] is None
}

/// Whether a paste finds, in the slot it reads, an offer with the MIME types
/// that a copy offers: what a compositor shows once the copy's source is the
/// selection.
pub open spec fn relays(
    pasting: paste::State,
    clipboard: paste::ClipboardType,
    seat: paste::Seat,
    prepared: PreparedCopy,
) -> bool {
    paste::get_mime_types_spec(clipboard, seat, pasting) == Ok::<Seq<Seq<char>>, paste::Error>(
        texts(prepared.state.data_paths.mime_types@),
    )
}

/// Listing and pasting fail with the reason that fits: without a clipboard
/// manager among the globals nothing is bound; without a seat there is
/// `NoSeats`; a seat that holds no selection gives `ClipboardEmpty`; and a
/// specific MIME type that the offer lacks gives `NoMimeType`.
pub proof fn lemma_empty_targeting(
    globals: Seq<Global>,
    primary: bool,
    clipboard: paste::ClipboardType,
    seat: paste::Seat,
    wanted: &str,
    state: paste::State,
)
    ensures
        (forall|i: int|
            0 <= i < globals.len() ==> (#[trigger] globals[i]).interface@ != ext_interface()
                && globals[i].interface@ != zwlr_interface()) ==> manager_for(globals, primary)
            is None,
        state.common.seats@.len() == 0 ==> paste::get_mime_types_spec(clipboard, seat, state)
            == Err::<Seq<Seq<char>>, paste::Error>(paste::Error::NoSeats),
        state.common.seats@.len() > 0 && seat is Unspecified && clipboard
            == paste::ClipboardType::Regular && state.common.seats@[0].data.offer is None
            ==> paste::get_mime_types_spec(clipboard, seat, state) == Err::<
            Seq<Seq<char>>,
            paste::Error,
        >(paste::Error::ClipboardEmpty),
        (paste::get_mime_types_spec(clipboard, seat, state) matches Ok(offered) && !has_key(
            offered,
            wanted@,
        )) ==> paste::get_contents_spec(
            clipboard,
            seat,
            paste::MimeType::Specific(wanted),
            state,
        ) == Err::<(Offer, Seq<char>), paste::Error>(paste::Error::NoMimeType),
{
    if forall|i: int|
        0 <= i < globals.len() ==> (#[trigger] globals[i]).interface@ != ext_interface()
            && globals[i].interface@ != zwlr_interface() {
        lemma_first_where_absent(globals, has_interface(ext_interface()));
        lemma_first_where_absent(globals, has_interface(zwlr_interface()));
    }
}

/// Copying bytes under a specific MIME type and pasting that MIME type back
/// gives the same bytes under the same MIME type, for every payload and every
/// MIME type, unless the copy was told to trim a trailing newline and did.
pub proof fn lemma_copy_then_paste(
    prepared: PreparedCopy,
    options: Options,
    payload: Vec<u8>,
    given: String,
    wanted: &str,
    stdin: Seq<u8>,
    detected: Option<String>,
    state: State,
    devices: Seq<Device>,
)
    requires
        prepares(
            prepared,
            options,
            seq![
                MimeSource { source: Source::Bytes(payload), mime_type: MimeType::Specific(given) },
            ],
            stdin,
            seq![detected],
            state,
            devices,
        ),
        wanted@ == given@,
        !(options.trim_newline && is_text_spec(given@) && payload@.len() > 0 && payload@.last()
            == 0x0au8),
    ensures
        paste::select_spec(
            paste::MimeType::Specific(wanted),
            texts(prepared.state.data_paths.mime_types@),
        ) == Some(given@),
        prepared.contents_spec(given@) == Some(payload@),
        forall|clipboard: paste::ClipboardType, seat: paste::Seat, pasting: paste::State|
            relays(pasting, clipboard, seat, prepared) ==> ((#[trigger] paste::get_contents_spec(
                clipboard,
                seat,
                paste::MimeType::Specific(wanted),
                pasting,
            )) matches Ok((_, m)) && m == given@),
{
    let sources = seq![
        MimeSource { source: Source::Bytes(payload), mime_type: MimeType::Specific(given) },
    ];
    let staged = crate::copy::staged_mime_types(sources, seq![detected]);
    assert(staged[0] == given@);
    assert(first_at(staged, is_key(given@), 0));
    lemma_first_where_found(staged, is_key(given@), 0);
    assert(prepared.state.data_paths.lookup(given@) == staged_lookup(
        staged,
        options.omit_additional_text_mime_types,
        given@,
    ));
    assert(prepared.payloads@[0]@ =~= payload@);
}

/// A payload copied as `Text` can be pasted under `text/plain`,
/// `text/plain;charset=utf-8`, `STRING`, `UTF8_STRING` and `TEXT`. Where the
/// additional text MIME types are omitted, it can be pasted under `text/plain`
/// and under nothing else.
pub proof fn lemma_text_aliases(
    prepared: PreparedCopy,
    options: Options,
    source: Source,
    stdin: Seq<u8>,
    detected: Option<String>,
    state: State,
    devices: Seq<Device>,
    mime_type: Seq<char>,
)
    requires
        prepares(
            prepared,
            options,
            seq![MimeSource { source, mime_type: MimeType::Text }],
            stdin,
            seq![detected],
            state,
            devices,
        ),
    ensures
        !options.omit_additional_text_mime_types && is_text_alias(mime_type)
            ==> prepared.contents_spec(mime_type) == Some(prepared.payloads@[0]@),
        options.omit_additional_text_mime_types ==> (prepared.contents_spec(mime_type) is Some
            <==> mime_type == plain_text()),
        prepared.contents_spec(plain_text()) == Some(prepared.payloads@[0]@),
{
    let sources = seq![MimeSource { source, mime_type: MimeType::Text }];
    let staged = crate::copy::staged_mime_types(sources, seq![detected]);
    let omit = options.omit_additional_text_mime_types;
    assert(staged[0] == plain_text());
    assert(is_text_spec(plain_text())) by {
        reveal_strlit("text/plain");
        assert(plain_text().subrange(0, 5) =~= text_prefix());
    }
    assert(first_at(staged, is_key(plain_text()), 0));
    lemma_first_where_found(staged, is_key(plain_text()), 0);
    assert(first_at(staged, names_text(), 0));
    lemma_first_where_found(staged, names_text(), 0);
    lemma_first_where_is_first(staged, is_key(mime_type));
    assert(prepared.state.data_paths.lookup(mime_type) == staged_lookup(staged, omit, mime_type));
    assert(prepared.state.data_paths.lookup(plain_text()) == staged_lookup(
        staged,
        omit,
        plain_text(),
    ));
}

/// Of sources staged under one MIME type the first answers for it, and a source
/// that is not the first of its MIME type answers for nothing.
pub proof fn lemma_first_wins(
    data_paths: DataPaths,
    mime_types: Seq<Seq<char>>,
    omit: bool,
    i: int,
)
    requires
        stages(data_paths, mime_types, omit),
        0 <= i < mime_types.len(),
    ensures
        data_paths.lookup(mime_types[i]) == first_where(mime_types, is_key(mime_types[i])),
        data_paths.lookup(mime_types[i]) matches Some(j) && j <= i && mime_types[j]
            == mime_types[i],
        !is_first_of_its_type(mime_types, i) ==> forall|k: Seq<char>|
            data_paths.lookup(k) != Some(i),
{
    let own = mime_types[i];
    lemma_some_first(mime_types, is_key(own), i);
    let j = choose|j: int| first_at(mime_types, is_key(own), j) && j <= i;
    lemma_first_where_found(mime_types, is_key(own), j);
    assert(data_paths.lookup(own) == staged_lookup(mime_types, omit, own));
    if !is_first_of_its_type(mime_types, i) {
        assert forall|k: Seq<char>| data_paths.lookup(k) != Some(i) by {
            assert(data_paths.lookup(k) == staged_lookup(mime_types, omit, k));
            lemma_first_where_is_first(mime_types, is_key(k));
            lemma_first_where_is_first(mime_types, names_text());
            if first_where(mime_types, is_key(k)) == Some(i) {
                assert(k == own);
            }
            if first_where(mime_types, names_text()) == Some(i) {
                assert(j < i);
                assert(names_text()(mime_types[j]));
            }
        }
    }
}

/// With one request to serve, the first transfer ends serving whatever its
/// outcome: the source that was asked is destroyed, and any later request is
/// answered by destroying the source it reaches, never by a transfer.
pub proof fn lemma_one_shot(
    state: State,
    result: Result<(), DataSourceError>,
    later: Seq<char>,
)
    requires
        state.serve_requests == ServeRequests::Only(1),
    ensures
        state.ends_with(result),
        state.served(result).should_quit,
        state.served(result).serve_requests == ServeRequests::Only(0),
        state.served(result).send_action(later) == SendAction::DestroySource,
{
}

/// Clearing both clipboards leaves every targeted device without a selection
/// of either kind, whatever it held before.
pub proof fn lemma_clear_empties(selections: Selections, devices: Seq<Device>, i: int)
    requires
        0 <= i < devices.len(),
    ensures
        is_cleared(apply_all(selections, clear_requests(ClipboardType::Both, devices)), devices[i]),
    decreases devices.len(),
{
    let rest = clear_requests(ClipboardType::Both, devices.drop_last());
    let device = devices.last();
    let primary = Request::SetPrimarySelection { device, source: None };
    let regular = Request::SetSelection { device, source: None };
    let all = clear_requests(ClipboardType::Both, devices);
    let mid = rest.push(primary);
    assert(all == mid.push(regular));
    assert(all.drop_last() =~= mid);
    assert(mid.drop_last() =~= rest);
    assert(apply_all(selections, all) == apply(apply_all(selections, mid), regular));
    assert(apply_all(selections, mid) == apply(apply_all(selections, rest), primary));
    if i < devices.len() - 1 {
        lemma_clear_empties(selections, devices.drop_last(), i);
        assert(devices.drop_last()[i] == devices[i]);
    }
}

/// Clearing both clipboards twice in a row leaves the selections as clearing
/// them once does.
pub proof fn lemma_clear_idempotent(selections: Selections, devices: Seq<Device>)
    ensures
        ({
            let once = apply_all(selections, clear_requests(ClipboardType::Both, devices));
            let twice = apply_all(once, clear_requests(ClipboardType::Both, devices));
            twice.regular =~= once.regular && twice.primary =~= once.primary
        }),
{
    let once = apply_all(selections, clear_requests(ClipboardType::Both, devices));
    assert forall|d: Device| devices.contains(d) implies is_cleared(once, d) by {
        let i = choose|i: int| 0 <= i < devices.len() && devices[i] == d;
        lemma_clear_empties(selections, devices, i);
    }
    lemma_clear_keeps_cleared(once, devices, devices.len() as int);
    assert(devices.take(devices.len() as int) =~= devices);
}

/// Clearing some of the devices changes nothing where all of them are cleared already.
proof fn lemma_clear_keeps_cleared(selections: Selections, devices: Seq<Device>, n: int)
    requires
        0 <= n <= devices.len(),
        forall|d: Device| devices.contains(d) ==> is_cleared(selections, d),
    ensures
        ({
            let after = apply_all(
                selections,
                clear_requests(ClipboardType::Both, devices.take(n)),
            );
            after.regular =~= selections.regular && after.primary =~= selections.primary
        }),
    decreases n,
{
    if n > 0 {
        let part = devices.take(n);
        let rest = clear_requests(ClipboardType::Both, part.drop_last());
        let device = part.last();
        let primary = Request::SetPrimarySelection { device, source: None };
        let regular = Request::SetSelection { device, source: None };
        let all = clear_requests(ClipboardType::Both, part);
        let mid = rest.push(primary);
        assert(part.drop_last() =~= devices.take(n - 1));
        assert(all == mid.push(regular));
        assert(all.drop_last() =~= mid);
        assert(mid.drop_last() =~= rest);
        assert(apply_all(selections, all) == apply(apply_all(selections, mid), regular));
        assert(apply_all(selections, mid) == apply(apply_all(selections, rest), primary));
        assert(devices[n - 1] == device);
        assert(devices.contains(device));
        assert(is_cleared(selections, device));
        lemma_clear_keeps_cleared(selections, devices, n - 1);
    }
}

/// For both clipboards every device gets two selections to fill, the regular
/// and the primary one, each with a source of its own; both sources offer what
/// is staged.
pub proof fn lemma_both_targets(devices: Seq<Device>, i: int)
    requires
        0 <= i < devices.len(),
    ensures
        targets_spec(ClipboardType::Both, devices).len() == 2 * devices.len(),
        targets_spec(ClipboardType::Both, devices)[2 * i] == (devices[i], false),
        targets_spec(ClipboardType::Both, devices)[2 * i + 1] == (devices[i], true),
    decreases devices.len(),
{
    lemma_both_count(devices);
    lemma_both_count(devices.drop_last());
    if i < devices.len() - 1 {
        lemma_both_targets(devices.drop_last(), i);
    }
}

/// For both clipboards there are twice as many selections to fill as devices.
pub proof fn lemma_both_count(devices: Seq<Device>)
    ensures
        targets_spec(ClipboardType::Both, devices).len() == 2 * devices.len(),
    decreases devices.len(),
{
    if devices.len() > 0 {
        lemma_both_count(devices.drop_last());
    }
}

} // verus!
