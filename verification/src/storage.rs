//! The choice of the disk that a machine is installed on: among the disks
//! that are real, the slowest, then the smallest, then the one with the
//! lowest device name.

use crate::text::{
    char_is_digit, count_digits, digits_value, is_digit, leading_digits, lowercase, to_chars,
    to_lowercase,
};
use vstd::prelude::*;

verus! {

/// What is known of a disk.
#[derive(Debug, Clone, PartialEq, Eq)]
pub struct DiskFacts {
    pub name: String,
    pub dev_path: String,
    pub model: Option<String>,
    pub serial: Option<String>,
    pub size_bytes: Option<u64>,
    pub rotational: Option<bool>,
    pub bus_type: Option<String>,
}

/// Why a disk was chosen.
#[derive(Debug, Clone, Copy, PartialEq, Eq)]
pub enum PrimaryReason {
    /// It is the first disk that can be chosen.
    FirstFound,
    /// It turns, and the best disk before it did not.
    Rotational,
    /// It is smaller than the best disk before it.
    SmallestCapacity,
    /// Its device name is lower than that of the best disk before it.
    LowestDeviceNumber,
}

/// The chosen disk, and why it was chosen.
#[derive(Debug, Clone, PartialEq, Eq)]
pub struct PrimaryDiskInfo {
    pub name: String,
    pub dev_path: String,
    pub model: Option<String>,
    pub serial: Option<String>,
    pub size_bytes: Option<u64>,
    pub rotational: Option<bool>,
    pub bus_type: Option<String>,
    pub reason: String,
}

/// How many characters stand in `s` before its first digit.
pub open spec fn leading_plain(s: Seq<char>) -> nat
    decreases s.len(),
{
    if s.len() > 0 && !is_digit(s[0]) {
        1 + leading_plain(s.drop_first())
    } else {
        0
    }
}

/// The base of a device name: what stands before its first digit.
pub open spec fn device_base(name: Seq<char>) -> Seq<char> {
    name.take(leading_plain(name) as int)
}

/// The first run of digits in a device name.
pub open spec fn device_digits(name: Seq<char>) -> Seq<char> {
    let rest = name.skip(leading_plain(name) as int);
    rest.take(leading_digits(rest) as int)
}

/// The number of a device: what the first run of digits in its name writes;
/// zero where the name holds no digit, and where the number is beyond the
/// largest `u32`.
pub open spec fn device_number(name: Seq<char>) -> nat {
    let value = digits_value(device_digits(name));
    if value <= u32::MAX {
        value
    } else {
        0
    }
}

/// Whether `a` stands before `b` in the order of texts: character by
/// character, by the number of the character, a beginning before what it
/// begins.
pub open spec fn text_less(a: Seq<char>, b: Seq<char>) -> bool
    decreases a.len(),
{
    if b.len() == 0 {
        false
    } else if a.len() == 0 {
        true
    } else if a[0] == b[0] {
        text_less(a.drop_first(), b.drop_first())
    } else {
        (a[0] as int) < (b[0] as int)
    }
}

/// Whether the device name `a` is lower than `b`: by base where the bases
/// differ, else by number.
pub open spec fn name_before(a: Seq<char>, b: Seq<char>) -> bool {
    if device_base(a) != device_base(b) {
        text_less(device_base(a), device_base(b))
    } else {
        device_number(a) < device_number(b)
    }
}

/// Whether `part` stands somewhere in `s`.
pub open spec fn holds_part(s: Seq<char>, part: Seq<char>) -> bool {
    exists|at: int| 0 <= at <= s.len() - part.len() && #[trigger] s.subrange(at, at + part.len()) == part
}

/// Whether a model names a device that is no disk to install on.
pub open spec fn is_removable_model(model: Seq<char>) -> bool {
    holds_part(lowercase(model), "massstorageclass"@) || holds_part(
        lowercase(model),
        "flash drive"@,
    ) || holds_part(lowercase(model), "card reader"@)
}

/// Whether a disk can be chosen: its size is known and not zero, and its
/// model, where it has one, names no removable device.
pub open spec fn is_candidate(disk: DiskFacts) -> bool {
    &&& disk.size_bytes is Some
    &&& disk.size_bytes->0 > 0
    &&& match disk.model {
        Some(model) => !is_removable_model(model@),
        None => true,
    }
}

/// Whether a disk turns; one of which it is not known does not.
pub open spec fn turns(disk: DiskFacts) -> bool {
    disk.rotational == Some(true)
}

/// The size by which disks are compared: one of unknown size is the largest.
pub open spec fn compared_size(disk: DiskFacts) -> int {
    match disk.size_bytes {
        Some(size) => size as int,
        None => u64::MAX as int,
    }
}

/// Whether `disk` is a better choice than `other`: it turns and the other
/// does not; or both are alike in that and it is smaller; or they are alike
/// in size too and its device name is lower.
pub open spec fn better(disk: DiskFacts, other: DiskFacts) -> bool {
    if turns(disk) != turns(other) {
        turns(disk)
    } else if compared_size(disk) != compared_size(other) {
        compared_size(disk) < compared_size(other)
    } else {
        name_before(disk.name@, other.name@)
    }
}

/// Why `disk` is a better choice than `other`, where it is.
pub open spec fn reason_of(disk: DiskFacts, other: DiskFacts) -> PrimaryReason {
    if turns(disk) != turns(other) {
        PrimaryReason::Rotational
    } else if compared_size(disk) != compared_size(other) {
        PrimaryReason::SmallestCapacity
    } else {
        PrimaryReason::LowestDeviceNumber
    }
}

/// The choice among the first `n` disks: the place of the chosen disk and
/// the reason. The disks are taken in order, and a disk takes the place of
/// the best before it only where it is better.
pub open spec fn primary_choice(disks: Seq<DiskFacts>, n: int) -> Option<(int, PrimaryReason)>
    decreases n,
{
    if n <= 0 {
        None
    } else {
        match primary_choice(disks, n - 1) {
            None => if is_candidate(disks[n - 1]) {
                Some((n - 1, PrimaryReason::FirstFound))
            } else {
                None
            },
            Some((best, reason)) => if is_candidate(disks[n - 1]) && better(
                disks[n - 1],
                disks[best],
            ) {
                Some((n - 1, reason_of(disks[n - 1], disks[best])))
            } else {
                Some((best, reason))
            },
        }
    }
}

/// The words for a reason.
pub open spec fn reason_text(reason: PrimaryReason) -> Seq<char> {
    match reason {
        PrimaryReason::FirstFound => "First disk found"@,
        PrimaryReason::Rotational => "Rotational HDD (slowest)"@,
        PrimaryReason::SmallestCapacity => "Smallest capacity"@,
        PrimaryReason::LowestDeviceNumber => "Lowest device number"@,
    }
}

/// How many characters stand in `chars` before the first digit.
fn count_plain(chars: &Vec<char>) -> (count: usize)
    ensures
        count == leading_plain(chars@),
        count <= chars.len(),
{
    let n = chars.len();
    let mut end: usize = 0;
    assert(chars@.skip(0) =~= chars@);
    while end < n && !char_is_digit(chars[end])
        invariant
            n == chars.len(),
            end <= n,
            leading_plain(chars@) == end + leading_plain(chars@.skip(end as int)),
        decreases n - end,
    {
        assert(chars@.skip(end as int).drop_first() =~= chars@.skip(end + 1));
        end += 1;
    }
    end
}

/// The number of a device: what the first run of digits in its name writes,
/// or zero.
pub fn extract_device_number(name: &str) -> (number: u32)
    ensures
        number == device_number(name@),
{
    let chars = to_chars(name);
    let start = count_plain(&chars);
    let count = count_digits(&chars, start);
    let ghost run = device_digits(chars@);
    assert(run =~= chars@.subrange(start as int, start + count));
    let limit: u64 = 4294967295;
    let mut value: u64 = 0;
    let mut i: usize = 0;
    assert(run.take(0) =~= Seq::<char>::empty());
    while i < count
        invariant
            i <= count,
            start + count <= chars.len(),
            run == chars@.subrange(start as int, start + count),
            forall|j: int| start <= j < start + count ==> is_digit(chars@[j]),
            limit == 4294967295,
            value <= limit + 1,
            value <= limit ==> value == digits_value(run.take(i as int)),
            value == limit + 1 ==> digits_value(run.take(i as int)) > limit,
        decreases count - i,
    {
        let d: u64 = (chars[start + i] as u32 - 48) as u64;
        assert(run.take(i + 1).drop_last() =~= run.take(i as int));
        assert(run.take(i + 1).last() == chars@[start + i]);
        if value > limit {
            value = limit + 1;
        } else {
            let next = value * 10 + d;
            value = if next > limit {
                limit + 1
            } else {
                next
            };
        }
        i += 1;
    }
    assert(run.take(count as int) =~= run);
    if value > limit {
        0
    } else {
        value as u32
    }
}

/// The number of a character.
fn char_number(c: char) -> (number: u32)
    ensures
        number == c as int,
{
    c as u32
}

/// Whether the first `an` characters of `a` stand before the first `bn` of
/// `b` in the order of texts.
fn prefix_before(a: &Vec<char>, an: usize, b: &Vec<char>, bn: usize) -> (before: bool)
    requires
        an <= a.len(),
        bn <= b.len(),
    ensures
        before == text_less(a@.take(an as int), b@.take(bn as int)),
{
    let ghost x = a@.take(an as int);
    let ghost y = b@.take(bn as int);
    let mut i: usize = 0;
    assert(x.skip(0) =~= x);
    assert(y.skip(0) =~= y);
    while i < an && i < bn
        invariant
            i <= an <= a.len(),
            i <= bn <= b.len(),
            x == a@.take(an as int),
            y == b@.take(bn as int),
            text_less(x, y) == text_less(x.skip(i as int), y.skip(i as int)),
        decreases an - i,
    {
        assert(x.skip(i as int).drop_first() =~= x.skip(i + 1));
        assert(y.skip(i as int).drop_first() =~= y.skip(i + 1));
        assert(x.skip(i as int)[0] == a@[i as int]);
        assert(y.skip(i as int)[0] == b@[i as int]);
        let x: char = a[i];
        let y: char = b[i];
        if x != y {
            return char_number(x) < char_number(y);
        }
        i += 1;
    }
    i < bn
}

/// Whether the device name `name1` is lower than `name2`: `sda` before
/// `sdb`, `nvme0n1` before `nvme1n1`.
pub fn compare_device_names(name1: &str, name2: &str) -> (lower: bool)
    ensures
        lower == name_before(name1@, name2@),
{
    let a = to_chars(name1);
    let b = to_chars(name2);
    let an = count_plain(&a);
    let bn = count_plain(&b);
    let forward = prefix_before(&a, an, &b, bn);
    let backward = prefix_before(&b, bn, &a, an);
    proof {
        lemma_text_less_total(device_base(name1@), device_base(name2@));
        lemma_text_less_irreflexive(device_base(name1@));
    }
    if forward || backward {
        forward
    } else {
        extract_device_number(name1) < extract_device_number(name2)
    }
}

/// Whether `part` stands in `chars` at `at`.
fn part_at(chars: &Vec<char>, part: &Vec<char>, at: usize) -> (found: bool)
    requires
        at + part.len() <= chars.len(),
    ensures
        found == (chars@.subrange(at as int, at + part.len()) == part@),
{
    let ghost piece = chars@.subrange(at as int, at + part.len());
    let mut i: usize = 0;
    while i < part.len()
        invariant
            i <= part.len(),
            at + part.len() <= chars.len(),
            piece == chars@.subrange(at as int, at + part.len()),
            forall|j: int| 0 <= j < i ==> piece[j] == part@[j],
        decreases part.len() - i,
    {
        if chars[at + i] != part[i] {
            assert(piece[i as int] != part@[i as int]);
            return false;
        }
        i += 1;
    }
    assert(piece =~= part@);
    true
}

/// Whether `part` stands somewhere in `s`.
pub fn contains_part(s: &str, part: &str) -> (found: bool)
    ensures
        found == holds_part(s@, part@),
{
    let chars = to_chars(s);
    let wanted = to_chars(part);
    if wanted.len() > chars.len() {
        return false;
    }
    let last = chars.len() - wanted.len();
    let mut at: usize = 0;
    loop
        invariant
            at <= last,
            last == chars.len() - wanted.len(),
            wanted.len() <= chars.len(),
            chars@ == s@,
            wanted@ == part@,
            forall|k: int| 0 <= k < at ==> #[trigger] s@.subrange(k, k + part@.len()) != part@,
        decreases last - at,
    {
        if part_at(&chars, &wanted, at) {
            return true;
        }
        if at == last {
            return false;
        }
        at += 1;
    }
}

/// Whether a disk can be chosen.
pub fn is_candidate_disk(disk: &DiskFacts) -> (candidate: bool)
    ensures
        candidate == is_candidate(*disk),
{
    let sized = match disk.size_bytes {
        Some(size) => size > 0,
        None => false,
    };
    if !sized {
        return false;
    }
    match &disk.model {
        Some(model) => {
            let lower = to_lowercase(model.as_str());
            !contains_part(lower.as_str(), "massstorageclass") && !contains_part(
                lower.as_str(),
                "flash drive",
            ) && !contains_part(lower.as_str(), "card reader")
        },
        None => true,
    }
}

/// Whether `disk` is a better choice than `other`, and why.
fn compare_disks(disk: &DiskFacts, other: &DiskFacts) -> (found: Option<PrimaryReason>)
    ensures
        found is Some <==> better(*disk, *other),
        found is Some ==> found->0 == reason_of(*disk, *other),
{
    let disk_turns = match disk.rotational {
        Some(turning) => turning,
        None => false,
    };
    let other_turns = match other.rotational {
        Some(turning) => turning,
        None => false,
    };
    if disk_turns != other_turns {
        return if disk_turns {
            Some(PrimaryReason::Rotational)
        } else {
            None
        };
    }
    let disk_size: u64 = match disk.size_bytes {
        Some(size) => size,
        None => u64::MAX,
    };
    let other_size: u64 = match other.size_bytes {
        Some(size) => size,
        None => u64::MAX,
    };
    if disk_size != other_size {
        return if disk_size < other_size {
            Some(PrimaryReason::SmallestCapacity)
        } else {
            None
        };
    }
    if compare_device_names(disk.name.as_str(), other.name.as_str()) {
        Some(PrimaryReason::LowestDeviceNumber)
    } else {
        None
    }
}

/// The words for a reason.
pub fn reason_words(reason: PrimaryReason) -> (words: String)
    ensures
        words@ == reason_text(reason),
{
    match reason {
        PrimaryReason::FirstFound => "First disk found".to_owned(),
        PrimaryReason::Rotational => "Rotational HDD (slowest)".to_owned(),
        PrimaryReason::SmallestCapacity => "Smallest capacity".to_owned(),
        PrimaryReason::LowestDeviceNumber => "Lowest device number".to_owned(),
    }
}

/// The place of the disk to install on, and the reason: among the disks that
/// can be chosen, the first of those than which none is better.
pub fn choose_primary_disk(disks: &Vec<DiskFacts>) -> (chosen: Option<(usize, PrimaryReason)>)
    ensures
        match primary_choice(disks@, disks.len() as int) {
            Some((place, reason)) => chosen == Some((place as usize, reason)) && 0 <= place
                < disks.len(),
            None => chosen is None,
        },
{
    let mut best: Option<(usize, PrimaryReason)> = None;
    let mut i: usize = 0;
    while i < disks.len()
        invariant
            i <= disks.len(),
            match primary_choice(disks@, i as int) {
                Some((place, reason)) => best == Some((place as usize, reason)) && 0 <= place < i,
                None => best is None,
            },
        decreases disks.len() - i,
    {
        if is_candidate_disk(&disks[i]) {
            match best {
                None => {
                    best = Some((i, PrimaryReason::FirstFound));
                },
                Some((place, _)) => {
                    match compare_disks(&disks[i], &disks[place]) {
                        Some(reason) => {
                            best = Some((i, reason));
                        },
                        None => {},
                    }
                },
            }
        }
        i += 1;
    }
    best
}

/// What an optional text holds.
pub open spec fn optional_text(text: Option<String>) -> Option<Seq<char>> {
    match text {
        Some(t) => Some(t@),
        None => None,
    }
}

fn copy_of(text: &Option<String>) -> (copy: Option<String>)
    ensures
        optional_text(copy) == optional_text(*text),
{
    match text {
        Some(t) => Some(t.clone()),
        None => None,
    }
}

/// Whether `info` tells of `disk`.
pub open spec fn tells_of(info: PrimaryDiskInfo, disk: DiskFacts) -> bool {
    &&& info.name@ == disk.name@
    &&& info.dev_path@ == disk.dev_path@
    &&& optional_text(info.model) == optional_text(disk.model)
    &&& optional_text(info.serial) == optional_text(disk.serial)
    &&& info.size_bytes == disk.size_bytes
    &&& info.rotational == disk.rotational
    &&& optional_text(info.bus_type) == optional_text(disk.bus_type)
}

/// The disk to install on, with the reason for the choice; none where no
/// disk can be chosen.
pub fn get_primary_disk(disks: &Vec<DiskFacts>) -> (primary: Option<PrimaryDiskInfo>)
    ensures
        match primary_choice(disks@, disks.len() as int) {
            Some((place, reason)) => primary is Some && 0 <= place < disks.len() && tells_of(
                primary->0,
                disks@[place],
            ) && primary->0.reason@ == reason_text(reason),
            None => primary is None,
        },
{
    match choose_primary_disk(disks) {
        Some((place, reason)) => {
            let disk = &disks[place];
            Some(
                PrimaryDiskInfo {
                    name: disk.name.clone(),
                    dev_path: disk.dev_path.clone(),
                    model: copy_of(&disk.model),
                    serial: copy_of(&disk.serial),
                    size_bytes: disk.size_bytes,
                    rotational: disk.rotational,
                    bus_type: copy_of(&disk.bus_type),
                    reason: reason_words(reason),
                },
            )
        },
        None => None,
    }
}

/// No text stands before itself.
pub proof fn lemma_text_less_irreflexive(a: Seq<char>)
    ensures
        !text_less(a, a),
    decreases a.len(),
{
    if a.len() > 0 {
        lemma_text_less_irreflexive(a.drop_first());
    }
}

/// Of two different texts one stands before the other.
pub proof fn lemma_text_less_total(a: Seq<char>, b: Seq<char>)
    ensures
        a != b ==> text_less(a, b) || text_less(b, a),
    decreases a.len(),
{
    if a.len() > 0 && b.len() > 0 {
        if a[0] == b[0] {
            lemma_text_less_total(a.drop_first(), b.drop_first());
            if a.drop_first() == b.drop_first() {
                assert(a =~= seq![a[0]] + a.drop_first());
                assert(b =~= seq![b[0]] + b.drop_first());
                assert(a =~= b);
            }
        } else {
            assert(a[0] as int != b[0] as int);
        }
    } else if a.len() == 0 && b.len() == 0 {
        assert(a =~= b);
    }
}

/// The order of texts is transitive.
pub proof fn lemma_text_less_transitive(a: Seq<char>, b: Seq<char>, c: Seq<char>)
    requires
        text_less(a, b),
        text_less(b, c),
    ensures
        text_less(a, c),
    decreases a.len(),
{
    if a.len() > 0 && a[0] == b[0] && b[0] == c[0] {
        lemma_text_less_transitive(a.drop_first(), b.drop_first(), c.drop_first());
    }
}

/// The order of device names is strict: no name is lower than itself, the
/// order is transitive, and a name that is lower than another is lower than
/// any third name, or the third is lower than the other.
pub proof fn lemma_name_order(a: Seq<char>, j: Seq<char>, c: Seq<char>)
    ensures
        !name_before(a, a),
        name_before(a, j) && name_before(j, c) ==> name_before(a, c),
        name_before(a, c) ==> name_before(a, j) || name_before(j, c),
{
    let x = device_base(a);
    let y = device_base(j);
    let z = device_base(c);
    lemma_text_less_irreflexive(x);
    lemma_text_less_irreflexive(y);
    lemma_text_less_irreflexive(z);
    lemma_text_less_total(x, y);
    lemma_text_less_total(y, z);
    lemma_text_less_total(x, z);
    if text_less(x, y) && text_less(y, z) {
        lemma_text_less_transitive(x, y, z);
    }
    if text_less(y, x) && text_less(x, z) {
        lemma_text_less_transitive(y, x, z);
    }
    if text_less(x, z) && text_less(z, y) {
        lemma_text_less_transitive(x, z, y);
    }
    if text_less(y, z) && text_less(z, x) {
        lemma_text_less_transitive(y, z, x);
    }
    if text_less(z, x) && text_less(x, y) {
        lemma_text_less_transitive(z, x, y);
    }
    if text_less(z, y) && text_less(y, x) {
        lemma_text_less_transitive(z, y, x);
    }
}

/// The order of disks is strict: no disk is better than itself, the order is
/// transitive, and a disk that is better than another is better than any
/// third disk, or the third is better than the other.
pub proof fn lemma_disk_order(a: DiskFacts, j: DiskFacts, c: DiskFacts)
    ensures
        !better(a, a),
        better(a, j) && better(j, c) ==> better(a, c),
        better(a, c) ==> better(a, j) || better(j, c),
{
    lemma_name_order(a.name@, j.name@, c.name@);
}

/// What the choice among the first `n` disks is: a disk that can be chosen,
/// than which none of them that can be chosen is better, and which is
/// better than every one before it that can be chosen; and there is no
/// choice only where none can be chosen.
pub proof fn lemma_primary_choice(disks: Seq<DiskFacts>, n: int)
    requires
        0 <= n <= disks.len(),
    ensures
        match primary_choice(disks, n) {
            Some((place, reason)) => {
                &&& 0 <= place < n
                &&& is_candidate(disks[place])
                &&& forall|j: int|
                    0 <= j < n && is_candidate(#[trigger] disks[j]) ==> !better(
                        disks[j],
                        disks[place],
                    )
                &&& forall|j: int|
                    0 <= j < place && is_candidate(#[trigger] disks[j]) ==> better(
                        disks[place],
                        disks[j],
                    )
            },
            None => forall|j: int| 0 <= j < n ==> !is_candidate(#[trigger] disks[j]),
        },
    decreases n,
{
    if n > 0 {
        lemma_primary_choice(disks, n - 1);
        let last = disks[n - 1];
        match primary_choice(disks, n - 1) {
            None => {},
            Some((best, _)) => {
                lemma_disk_order(last, last, last);
                if is_candidate(last) && better(last, disks[best]) {
                    assert forall|j: int| 0 <= j < n && is_candidate(#[trigger] disks[j]) implies !better(
                        disks[j],
                        last,
                    ) by {
                        lemma_disk_order(disks[j], last, disks[best]);
                    }
                    assert forall|j: int| 0 <= j < n - 1 && is_candidate(
                        #[trigger] disks[j],
                    ) implies better(last, disks[j]) by {
                        lemma_disk_order(last, disks[j], disks[best]);
                    }
                }
            },
        }
    }
}

/// The chosen disk is the least of the disks that can be chosen, and of
/// several that are least the first: no disk that can be chosen is better
/// than it, and it is better than every such disk before it. Where a disk
/// can be chosen, one is.
pub proof fn lemma_primary_is_least(disks: Seq<DiskFacts>)
    ensures
        match primary_choice(disks, disks.len() as int) {
            Some((place, reason)) => {
                &&& 0 <= place < disks.len()
                &&& is_candidate(disks[place])
                &&& forall|j: int|
                    0 <= j < disks.len() && is_candidate(#[trigger] disks[j]) ==> !better(
                        disks[j],
                        disks[place],
                    )
                &&& forall|j: int|
                    0 <= j < place && is_candidate(#[trigger] disks[j]) ==> better(
                        disks[place],
                        disks[j],
                    )
            },
            None => forall|j: int| 0 <= j < disks.len() ==> !is_candidate(#[trigger] disks[j]),
        },
{
    lemma_primary_choice(disks, disks.len() as int);
}

} // verus!
