//! Which certificate parameters can be written at all.
//!
//! The X.509 backend reads more than it can write: an object identifier outside the
//! standard's arcs, a question mark in a printable string, a constraint that is not
//! ASCII, a date that leaves the range of its form between two time zones. Its writer
//! panics on those, so what it would write is looked at before anything is signed.
//! Texts of the other kinds were checked when they were read: their types hold nothing
//! that cannot be written.
use crate::text::chars_of;
use rcgen::CertificateParams;
use rcgen::DnType;
use rcgen::DnValue;
use rcgen::ExtendedKeyUsagePurpose;
use rcgen::GeneralSubtree;
use rcgen::SanType;
use vstd::prelude::*;

verus! {

/// Certificate parameters of the X.509 backend (`rcgen::CertificateParams`),
/// opaque.
#[verifier::external_type_specification]
#[verifier::external_body]
pub struct ExCertificateParams(rcgen::CertificateParams);

/// The first second of the year 1950, in seconds since the epoch.
pub const YEAR_1950: i64 = -631_152_000;

/// The first second of the year 2050.
pub const YEAR_2050: i64 = 2_524_608_000;

/// The first second of the year 0.
pub const YEAR_0: i64 = -62_167_219_200;

/// The first second of the year 10000.
pub const YEAR_10000: i64 = 253_402_300_800;

/// The object identifiers that have an encoding.
pub open spec fn writable_identifier(oid: Seq<u64>) -> bool {
    &&& oid.len() >= 2
    &&& oid[0] < 3
    &&& oid[1] < 18446744073709551535
    &&& (oid[0] >= 2 || oid[1] < 40)
}

/// The characters that a printable string is written with.
pub open spec fn printable(c: char) -> bool {
    ||| c == ' '
    ||| '\'' <= c <= ':' && c != '*'
    ||| c == '='
    ||| 'A' <= c <= 'Z'
    ||| 'a' <= c <= 'z'
}

/// The printable strings that have an encoding.
pub open spec fn writable_printable(text: Seq<char>) -> bool {
    forall|i: int| 0 <= i < text.len() ==> printable(#[trigger] text[i])
}

/// The texts that are written as ASCII.
pub open spec fn ascii(text: Seq<char>) -> bool {
    forall|i: int| 0 <= i < text.len() ==> #[trigger] text[i] < '\u{80}'
}

/// The attributes of a name that have an encoding. An attribute is its identifier,
/// where that is not one of the common ones, and its text, where that is a printable
/// string.
pub open spec fn writable_attribute(a: (Option<Seq<u64>>, Option<Seq<char>>)) -> bool {
    &&& a.0 is Some ==> writable_identifier(a.0->0)
    &&& a.1 is Some ==> writable_printable(a.1->0)
}

/// The names that have an encoding.
pub open spec fn writable_name(name: Seq<(Option<Seq<u64>>, Option<Seq<char>>)>) -> bool {
    forall|i: int| 0 <= i < name.len() ==> writable_attribute(#[trigger] name[i])
}

/// The dates that have an encoding. A date is its year where it was written and its
/// seconds since the epoch: the year says in which of two forms it is encoded, and
/// each form has its range.
pub open spec fn writable_date(date: (i32, i64)) -> bool {
    if 1950 <= date.0 < 2050 {
        YEAR_1950 <= date.1 < YEAR_2050
    } else {
        YEAR_0 <= date.1 < YEAR_10000
    }
}

/// The attributes of the subject, in order.
pub uninterp spec fn subject_of(params: CertificateParams) -> Seq<
    (Option<Seq<u64>>, Option<Seq<char>>),
>;

/// The identifiers of the alternative names, of the extended key usages and of the
/// custom extensions, in order: none for one that is well known.
pub uninterp spec fn identifiers_of(params: CertificateParams) -> Seq<Option<Seq<u64>>>;

/// The permitted and then the excluded subtrees of the name constraints: a text, or
/// the attributes of a directory name.
pub uninterp spec fn constraints_of(params: CertificateParams) -> Seq<
    (Option<Seq<char>>, Seq<(Option<Seq<u64>>, Option<Seq<char>>)>),
>;

/// The addresses of the revocation lists, by distribution point.
pub uninterp spec fn revocation_of(params: CertificateParams) -> Seq<Seq<Seq<char>>>;

/// The dates between which the certificate is valid, each as its year and its
/// seconds since the epoch.
pub uninterp spec fn validity_of(params: CertificateParams) -> ((i32, i64), (i32, i64));

/// The parameters that the backend can write.
pub open spec fn writable(params: CertificateParams) -> bool {
    &&& writable_name(subject_of(params))
    &&& forall|i: int|
        0 <= i < identifiers_of(params).len() && (#[trigger] identifiers_of(params)[i]) is Some
            ==> writable_identifier(identifiers_of(params)[i]->0)
    &&& forall|i: int|
        0 <= i < constraints_of(params).len() ==> writable_constraint(
            #[trigger] constraints_of(params)[i],
        )
    &&& forall|i: int|
        0 <= i < revocation_of(params).len() ==> all_ascii(#[trigger] revocation_of(params)[i])
    &&& writable_date(validity_of(params).0)
    &&& writable_date(validity_of(params).1)
}

/// The subtrees that have an encoding.
pub open spec fn writable_constraint(
    subtree: (Option<Seq<char>>, Seq<(Option<Seq<u64>>, Option<Seq<char>>)>),
) -> bool {
    &&& subtree.0 is Some ==> ascii(subtree.0->0)
    &&& writable_name(subtree.1)
}

/// The lists of texts that are all written as ASCII.
pub open spec fn all_ascii(texts: Seq<Seq<char>>) -> bool {
    forall|i: int| 0 <= i < texts.len() ==> ascii(#[trigger] texts[i])
}

/// The subject's attributes (`rcgen::DistinguishedName::iter`), one for one: the
/// identifier of a custom type, the text of a printable string.
#[verifier::external_body]
fn subject(params: &CertificateParams) -> (r: Vec<(Option<Vec<u64>>, Option<String>)>)
    ensures
        r.deep_view() == subject_of(*params),
{
    params.distinguished_name.iter().map(|(kind, value)| (
        match kind {
            DnType::CustomDnType(oid) => Some(oid.clone()),
            _ => None,
        },
        match value {
            DnValue::PrintableString(text) => Some(text.as_str().to_owned()),
            _ => None,
        },
    )).collect()
}

/// The identifiers that the extensions hold, one for one: the fields
/// `subject_alt_names`, `extended_key_usages` and `custom_extensions` of
/// `rcgen::CertificateParams`, the last by `rcgen::CustomExtension::oid_components`.
#[verifier::external_body]
fn identifiers(params: &CertificateParams) -> (r: Vec<Option<Vec<u64>>>)
    ensures
        r.deep_view() == identifiers_of(*params),
{
    let names = params.subject_alt_names.iter().map(|name| match name {
        SanType::OtherName((oid, _)) => Some(oid.clone()),
        _ => None,
    });
    let uses = params.extended_key_usages.iter().map(|purpose| match purpose {
        ExtendedKeyUsagePurpose::Other(oid) => Some(oid.clone()),
        _ => None,
    });
    let custom = params.custom_extensions.iter().map(|e| Some(e.oid_components().collect()));
    names.chain(uses).chain(custom).collect()
}

/// The subtrees of the name constraints, one for one: the fields
/// `permitted_subtrees` and `excluded_subtrees` of `rcgen::NameConstraints`.
#[verifier::external_body]
fn constraints(params: &CertificateParams) -> (r: Vec<
    (Option<String>, Vec<(Option<Vec<u64>>, Option<String>)>),
>)
    ensures
        r.deep_view() == constraints_of(*params),
{
    params.name_constraints.iter().flat_map(|c| c.permitted_subtrees.iter().chain(
        c.excluded_subtrees.iter(),
    )).map(|tree| match tree {
        GeneralSubtree::Rfc822Name(text) | GeneralSubtree::DnsName(text) => (
            Some(text.clone()), Vec::new(),
        ),
        GeneralSubtree::DirectoryName(name) => (None, name.iter().map(|(kind, value)| (
            match kind { DnType::CustomDnType(oid) => Some(oid.clone()), _ => None },
            match value { DnValue::PrintableString(s) => Some(s.as_str().to_owned()), _ => None },
        )).collect()),
        _ => (None, Vec::new()),
    }).collect()
}

/// The addresses of the revocation lists, one for one: the field
/// `crl_distribution_points` of `rcgen::CertificateParams`.
#[verifier::external_body]
fn revocation(params: &CertificateParams) -> (r: Vec<Vec<String>>)
    ensures
        r.deep_view() == revocation_of(*params),
{
    params.crl_distribution_points.iter().map(|point| point.uris.clone()).collect()
}

/// The dates of validity: the fields `not_before` and `not_after` of
/// `rcgen::CertificateParams`, by `year` and `unix_timestamp` of
/// `time::OffsetDateTime`.
#[verifier::external_body]
fn validity(params: &CertificateParams) -> (r: ((i32, i64), (i32, i64)))
    ensures
        r == validity_of(*params),
{
    (
        (params.not_before.year(), params.not_before.unix_timestamp()),
        (params.not_after.year(), params.not_after.unix_timestamp()),
    )
}

/// Decides [`writable_identifier`].
pub fn identifier_is_writable(oid: &Vec<u64>) -> (b: bool)
    ensures
        b == writable_identifier(oid@),
{
    oid.len() >= 2 && oid[0] < 3 && oid[1] < 18446744073709551535 && (oid[0] >= 2 || oid[1] < 40)
}

/// Decides [`writable_printable`].
pub fn printable_is_writable(text: &str) -> (b: bool)
    ensures
        b == writable_printable(text@),
{
    let chars = chars_of(text);
    let mut i: usize = 0;
    while i < chars.len()
        invariant
            i <= chars@.len(),
            chars@ == text@,
            forall|j: int| 0 <= j < i ==> printable(#[trigger] text@[j]),
        decreases chars@.len() - i,
    {
        let c: char = chars[i];
        if !(c == ' ' || ('\'' <= c && c <= ':' && c != '*') || c == '=' || ('A' <= c && c <= 'Z')
            || ('a' <= c && c <= 'z')) {
            proof {
                assert(!printable(text@[i as int]));
            }
            return false;
        }
        i = i + 1;
    }
    true
}

/// Decides [`ascii`].
pub fn text_is_ascii(text: &str) -> (b: bool)
    ensures
        b == ascii(text@),
{
    let chars = chars_of(text);
    let mut i: usize = 0;
    while i < chars.len()
        invariant
            i <= chars@.len(),
            chars@ == text@,
            forall|j: int| 0 <= j < i ==> #[trigger] text@[j] < '\u{80}',
        decreases chars@.len() - i,
    {
        if chars[i] >= '\u{80}' {
            proof {
                assert(!(text@[i as int] < '\u{80}'));
            }
            return false;
        }
        i = i + 1;
    }
    true
}

/// Decides [`writable_name`].
fn name_is_writable(name: &Vec<(Option<Vec<u64>>, Option<String>)>) -> (b: bool)
    ensures
        b == writable_name(name.deep_view()),
{
    let mut i: usize = 0;
    while i < name.len()
        invariant
            i <= name@.len(),
            forall|j: int| 0 <= j < i ==> writable_attribute(#[trigger] name.deep_view()[j]),
        decreases name@.len() - i,
    {
        let attribute = &name[i];
        proof {
            assert(name.deep_view()[i as int] == attribute.deep_view());
        }
        let identifier = match &attribute.0 {
            Some(oid) => identifier_is_writable(oid),
            None => true,
        };
        let text = match &attribute.1 {
            Some(text) => printable_is_writable(text.as_str()),
            None => true,
        };
        if !identifier || !text {
            return false;
        }
        i = i + 1;
    }
    true
}

/// Decides that every identifier there is [`writable_identifier`].
fn identifiers_are_writable(oids: &Vec<Option<Vec<u64>>>) -> (b: bool)
    ensures
        b == forall|i: int|
            0 <= i < oids.deep_view().len() && (#[trigger] oids.deep_view()[i]) is Some
                ==> writable_identifier(oids.deep_view()[i]->0),
{
    let mut i: usize = 0;
    while i < oids.len()
        invariant
            i <= oids@.len(),
            forall|j: int|
                0 <= j < i && (#[trigger] oids.deep_view()[j]) is Some ==> writable_identifier(
                    oids.deep_view()[j]->0,
                ),
        decreases oids@.len() - i,
    {
        proof {
            assert(oids.deep_view()[i as int] == oids@[i as int].deep_view());
        }
        match &oids[i] {
            Some(oid) => {
                if !identifier_is_writable(oid) {
                    return false;
                }
            },
            None => {},
        }
        i = i + 1;
    }
    true
}

/// Decides that every subtree is [`writable_constraint`].
fn constraints_are_writable(
    subtrees: &Vec<(Option<String>, Vec<(Option<Vec<u64>>, Option<String>)>)>,
) -> (b: bool)
    ensures
        b == forall|i: int|
            0 <= i < subtrees.deep_view().len() ==> writable_constraint(
                #[trigger] subtrees.deep_view()[i],
            ),
{
    let mut i: usize = 0;
    while i < subtrees.len()
        invariant
            i <= subtrees@.len(),
            forall|j: int|
                0 <= j < i ==> writable_constraint(#[trigger] subtrees.deep_view()[j]),
        decreases subtrees@.len() - i,
    {
        let subtree = &subtrees[i];
        proof {
            assert(subtrees.deep_view()[i as int] == subtree.deep_view());
        }
        let text = match &subtree.0 {
            Some(text) => text_is_ascii(text.as_str()),
            None => true,
        };
        if !text || !name_is_writable(&subtree.1) {
            return false;
        }
        i = i + 1;
    }
    true
}

/// Decides that every list is [`all_ascii`].
fn lists_are_ascii(lists: &Vec<Vec<String>>) -> (b: bool)
    ensures
        b == forall|i: int|
            0 <= i < lists.deep_view().len() ==> all_ascii(#[trigger] lists.deep_view()[i]),
{
    let mut i: usize = 0;
    while i < lists.len()
        invariant
            i <= lists@.len(),
            forall|j: int| 0 <= j < i ==> all_ascii(#[trigger] lists.deep_view()[j]),
        decreases lists@.len() - i,
    {
        let list = &lists[i];
        proof {
            assert(lists.deep_view()[i as int] == list.deep_view());
        }
        let mut k: usize = 0;
        while k < list.len()
            invariant
                i < lists@.len(),
                k <= list@.len(),
                lists.deep_view()[i as int] == list.deep_view(),
                forall|j: int| 0 <= j < k ==> ascii(#[trigger] list.deep_view()[j]),
            decreases list@.len() - k,
        {
            proof {
                assert(list.deep_view()[k as int] == list@[k as int]@);
            }
            if !text_is_ascii(list[k].as_str()) {
                proof {
                    assert(!all_ascii(lists.deep_view()[i as int]));
                }
                return false;
            }
            k = k + 1;
        }
        i = i + 1;
    }
    true
}

/// Decides [`writable_date`].
pub fn date_is_writable(date: (i32, i64)) -> (b: bool)
    ensures
        b == writable_date(date),
{
    if 1950 <= date.0 && date.0 < 2050 {
        YEAR_1950 <= date.1 && date.1 < YEAR_2050
    } else {
        YEAR_0 <= date.1 && date.1 < YEAR_10000
    }
}

/// Decides [`writable`].
pub fn is_writable(params: &CertificateParams) -> (b: bool)
    ensures
        b == writable(*params),
{
    let dates = validity(params);
    name_is_writable(&subject(params)) && identifiers_are_writable(&identifiers(params))
        && constraints_are_writable(&constraints(params)) && lists_are_ascii(&revocation(params))
        && date_is_writable(dates.0) && date_is_writable(dates.1)
}

/// What is written as a printable string is ASCII, so are all of its parts, and a letter, a
/// digit and a space always are printable.
pub proof fn printable_texts_are_ascii(a: Seq<char>, b: Seq<char>, c: char)
    ensures
        writable_printable(a) ==> ascii(a),
        writable_printable(a + b) <==> writable_printable(a) && writable_printable(b),
        ascii(a + b) <==> ascii(a) && ascii(b),
        'a' <= c <= 'z' || 'A' <= c <= 'Z' || '0' <= c <= '9' || c == ' ' ==> printable(c),
        c == '*' || c == '@' || c == '&' || c == '_' || c == '"' ==> !printable(c),
{
    if writable_printable(a + b) {
        assert forall|i: int| 0 <= i < a.len() implies printable(#[trigger] a[i]) by {
            assert((a + b)[i] == a[i]);
        }
        assert forall|i: int| 0 <= i < b.len() implies printable(#[trigger] b[i]) by {
            assert((a + b)[i + a.len()] == b[i]);
        }
    }
    if ascii(a + b) {
        assert forall|i: int| 0 <= i < a.len() implies #[trigger] a[i] < '\u{80}' by {
            assert((a + b)[i] == a[i]);
        }
        assert forall|i: int| 0 <= i < b.len() implies #[trigger] b[i] < '\u{80}' by {
            assert((a + b)[i + a.len()] == b[i]);
        }
    }
}

/// Whether an identifier has an encoding rests on its first two arcs alone, and an
/// identifier of fewer has none; the second arc is below forty under the first two roots.
pub proof fn an_identifier_is_judged_by_its_first_arcs(a: Seq<u64>, b: Seq<u64>)
    ensures
        a.len() >= 2 && b.len() >= 2 && a[0] == b[0] && a[1] == b[1] ==> writable_identifier(a)
            == writable_identifier(b),
        a.len() < 2 ==> !writable_identifier(a),
        writable_identifier(a) ==> a[0] <= 2 && (a[0] < 2 ==> a[1] < 40),
        a.len() >= 2 && a[0] <= 2 && a[1] < 40 ==> writable_identifier(a),
{
}

/// The dates of one form that have an encoding have no gap: between two of them lie only
/// such.
pub proof fn writable_dates_have_no_gap(year: i32, early: i64, middle: i64, late: i64)
    requires
        early <= middle <= late,
        writable_date((year, early)),
        writable_date((year, late)),
    ensures
        writable_date((year, middle)),
        1950 <= year < 2050 ==> early >= YEAR_1950 && late < YEAR_2050,
        YEAR_0 <= early && late < YEAR_10000,
{
}

} // verus!
