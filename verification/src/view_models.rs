//! What a frame shows, gathered from the container and interface state.
use vstd::prelude::*;
use crate::fmt::{decimal, decimal_len, push_char, push_decimal, push_str};
use crate::gui_state::{frame_char, view_is_loading, GuiState, GuiView, Status, StatusSet};
use crate::model::{
    duplicate_ports, opt_id_view, ports_view, state_label, Columns, ContainerId, ContainerPorts,
    DockerCommand, FilterBy, Header, PortView as PortFields, SortedOrder, State, header_columns,
};
use crate::text::{byte_len, sat_usize, seq_max, text_byte_len};
use crate::ui_state::{items_view, logs_view, ContainerItem, ContainerItemView, UIContainerState};
use std::collections::VecDeque;

verus! {

broadcast use vstd::seq_lib::group_filter_ensures;

/// The place of a port in the ports list: ports published on the host come
/// first, by public port; the others follow, by private port.
pub open spec fn port_key(p: PortFields) -> int {
    match p.public {
        Some(x) => x as int,
        None => 65536 + p.private,
    }
}

/// Whether a port has the place `k` (see `port_key`).
pub open spec fn key_is(k: int) -> spec_fn(PortFields) -> bool {
    |p: PortFields| port_key(p) == k
}

/// The ports are in order of `port_key`.
pub open spec fn ports_sorted(s: Seq<PortFields>) -> bool {
    forall|i: int, j: int| 0 <= i <= j < s.len() ==> port_key(s[i]) <= port_key(s[j])
}

/// `out` holds the ports of `inp` in order of `port_key`, and ports with the
/// same place keep their order: a stable sort.
pub open spec fn stable_sort_of(inp: Seq<PortFields>, out: Seq<PortFields>) -> bool {
    &&& ports_sorted(out)
    &&& forall|k: int| #[trigger] out.filter(key_is(k)) == inp.filter(key_is(k))
}

proof fn lemma_filter_none<A>(s: Seq<A>, p: spec_fn(A) -> bool)
    requires
        forall|i: int| 0 <= i < s.len() ==> !p(s[i]),
    ensures
        s.filter(p) == Seq::<A>::empty(),
    decreases s.len(),
{
    reveal_with_fuel(Seq::<_>::filter, 1);
    if s.len() > 0 {
        lemma_filter_none(s.drop_last(), p);
    }
    assert(s.filter(p) =~= Seq::<A>::empty());
}

proof fn lemma_filter_one<A>(x: A, p: spec_fn(A) -> bool)
    ensures
        seq![x].filter(p) == if p(x) {
            seq![x]
        } else {
            Seq::<A>::empty()
        },
{
    reveal_with_fuel(Seq::<_>::filter, 2);
    assert(seq![x].drop_last() =~= Seq::<A>::empty());
    if p(x) {
        assert(seq![x].filter(p) =~= seq![x]);
    } else {
        assert(seq![x].filter(p) =~= Seq::<A>::empty());
    }
}

proof fn lemma_filter_push<A>(s: Seq<A>, x: A, p: spec_fn(A) -> bool)
    ensures
        s.push(x).filter(p) == if p(x) {
            s.filter(p).push(x)
        } else {
            s.filter(p)
        },
{
    reveal_with_fuel(Seq::<_>::filter, 1);
    assert(s.push(x).drop_last() =~= s);
}

/// Inserting `x` where every port before has a place no later and every
/// port after a later one keeps the order and adds `x` last among the ports
/// with its place.
proof fn lemma_insert_sorted(out: Seq<PortFields>, p: int, x: PortFields)
    requires
        0 <= p <= out.len(),
        ports_sorted(out),
        forall|i: int| 0 <= i < p ==> port_key(out[i]) <= port_key(x),
        forall|i: int| p <= i < out.len() ==> port_key(out[i]) > port_key(x),
    ensures
        ports_sorted(out.insert(p, x)),
        forall|k: int|
            #[trigger] out.insert(p, x).filter(key_is(k)) == if k == port_key(x) {
                out.filter(key_is(k)).push(x)
            } else {
                out.filter(key_is(k))
            },
{
    let a = out.take(p);
    let b = out.skip(p);
    assert(out =~= a + b);
    assert(out.insert(p, x) =~= a + seq![x] + b);
    assert forall|k: int| #[trigger] out.insert(p, x).filter(key_is(k)) == if k == port_key(x) {
        out.filter(key_is(k)).push(x)
    } else {
        out.filter(key_is(k))
    } by {
        let f = key_is(k);
        Seq::filter_distributes_over_add(a + seq![x], b, f);
        Seq::filter_distributes_over_add(a, seq![x], f);
        Seq::filter_distributes_over_add(a, b, f);
        lemma_filter_one(x, f);
        if k == port_key(x) {
            assert forall|i: int| 0 <= i < b.len() implies !f(b[i]) by {
                assert(b[i] == out[p + i]);
            }
            lemma_filter_none(b, f);
            assert(a.filter(f) + seq![x] + Seq::<PortFields>::empty() =~= (a.filter(f) + Seq::<
                PortFields,
            >::empty()).push(x));
            assert(a.filter(f) + Seq::<PortFields>::empty() =~= a.filter(f));
        } else {
            assert(a.filter(f) + Seq::<PortFields>::empty() =~= a.filter(f));
        }
    }
}

/// A copy of `ports` sorted by `port_key`, keeping the order of ports with
/// the same place: those published on the host first, by public port, then
/// the others by private port.
pub fn sort_ports(ports: &Vec<ContainerPorts>) -> (r: Vec<ContainerPorts>)
    ensures
        stable_sort_of(ports_view(ports@), ports_view(r@)),
{
    let ghost inp = ports_view(ports@);
    let mut out: Vec<ContainerPorts> = Vec::new();
    let mut i: usize = 0;
    proof {
        assert(inp.take(0) =~= Seq::<PortFields>::empty());
        assert forall|k: int| #[trigger] ports_view(out@).filter(key_is(k)) == inp.take(0).filter(
            key_is(k),
        ) by {
            assert(ports_view(out@) =~= Seq::<PortFields>::empty());
        }
    }
    while i < ports.len()
        invariant
            inp == ports_view(ports@),
            i <= ports@.len(),
            ports_sorted(ports_view(out@)),
            forall|k: int| #[trigger] ports_view(out@).filter(key_is(k)) == inp.take(i as int).filter(key_is(k)),
        decreases ports@.len() - i,
    {
        let x = ports[i].duplicate();
        let xk: u32 = match x.public {
            Some(v) => v as u32,
            None => 65536 + x.private as u32,
        };
        let ghost cur = ports_view(out@);
        let mut p: usize = 0;
        while p < out.len()
            invariant
                0 <= p <= out@.len(),
                cur == ports_view(out@),
                xk == port_key(x@),
                forall|m: int| 0 <= m < p ==> port_key(cur[m]) <= xk,
            ensures
                0 <= p <= out@.len(),
                forall|m: int| 0 <= m < p ==> port_key(cur[m]) <= xk,
                p < out@.len() ==> port_key(cur[p as int]) > xk,
            decreases out@.len() - p,
        {
            let yk: u32 = match out[p].public {
                Some(v) => v as u32,
                None => 65536 + out[p].private as u32,
            };
            proof {
                assert(yk == port_key(cur[p as int]));
            }
            if yk > xk {
                break;
            }
            p = p + 1;
        }
        proof {
            if p < out@.len() {
                assert(port_key(cur[p as int]) > port_key(x@));
            }
            assert forall|m: int| p <= m < cur.len() implies port_key(cur[m]) > port_key(x@) by {
                assert(port_key(cur[p as int]) <= port_key(cur[m]));
            }
            lemma_insert_sorted(cur, p as int, x@);
            assert(inp.take(i + 1) =~= inp.take(i as int).push(inp[i as int]));
            assert(inp[i as int] == x@);
        }
        out.insert(p, x);
        proof {
            assert(ports_view(out@) =~= cur.insert(p as int, x@));
            assert forall|k: int| #[trigger] ports_view(out@).filter(key_is(k)) == inp.take(i + 1).filter(
                key_is(k),
            ) by {
                lemma_filter_push(inp.take(i as int), x@, key_is(k));
            }
        }
        i = i + 1;
    }
    proof {
        assert(inp.take(ports@.len() as int) =~= inp);
    }
    out
}

proof fn lemma_filter_count(s: Seq<PortFields>, p: spec_fn(PortFields) -> bool, x: PortFields)
    ensures
        s.filter(p).to_multiset().count(x) == if p(x) {
            s.to_multiset().count(x)
        } else {
            0
        },
    decreases s.len(),
{
    broadcast use vstd::seq_lib::group_to_multiset_ensures;

    if s.len() == 0 {
        reveal_with_fuel(Seq::<_>::filter, 1);
        assert(s.filter(p) =~= Seq::<PortFields>::empty());
        assert(s.to_multiset() =~= vstd::multiset::Multiset::<PortFields>::empty());
        assert(s.filter(p).to_multiset() =~= vstd::multiset::Multiset::<PortFields>::empty());
    } else {
        let t = s.drop_last();
        lemma_filter_count(t, p, x);
        assert(s =~= t.push(s.last()));
        lemma_filter_push(t, s.last(), p);
    }
}

/// A stable sort of the ports keeps every port, as often as it occurs.
pub proof fn law_sort_keeps_ports(inp: Seq<PortFields>, out: Seq<PortFields>)
    requires
        stable_sort_of(inp, out),
    ensures
        out.to_multiset() == inp.to_multiset(),
{
    assert forall|x: PortFields| out.to_multiset().count(x) == inp.to_multiset().count(x) by {
        let k = port_key(x);
        lemma_filter_count(out, key_is(k), x);
        lemma_filter_count(inp, key_is(k), x);
        assert(out.filter(key_is(k)) == inp.filter(key_is(k)));
    }
    assert(out.to_multiset() =~= inp.to_multiset());
}

/// In sorted ports, those published on the host come before the others,
/// and the unpublished ones are in order of their private port.
pub proof fn law_published_first(s: Seq<PortFields>, i: int, j: int)
    requires
        ports_sorted(s),
        0 <= i < j < s.len(),
    ensures
        s[j].public is Some ==> s[i].public is Some,
        s[i].public is None && s[j].public is None ==> s[i].private <= s[j].private,
        s[i].public is Some && s[j].public is Some ==> s[i].public.unwrap() <= s[j].public.unwrap(),
{
    assert(port_key(s[i]) <= port_key(s[j]));
}

/// The length of a port's ip as text (0 without an ip).
pub open spec fn ip_text_len(p: PortFields) -> nat {
    match p.ip {
        Some(t) => sat_usize(byte_len(t)),
        None => 0,
    }
}

/// The length of a port's private port as text.
pub open spec fn private_text_len(p: PortFields) -> nat {
    decimal(p.private as nat).len()
}

/// The length of a port's public port as text (0 when not published).
pub open spec fn public_text_len(p: PortFields) -> nat {
    match p.public {
        Some(x) => decimal(x as nat).len(),
        None => 0,
    }
}

/// The largest of `f` over the ports, or 0 for no ports.
pub open spec fn max_of_ports(s: Seq<PortFields>, f: spec_fn(PortFields) -> nat) -> nat
    decreases s.len(),
{
    if s.len() == 0 {
        0
    } else {
        let m = max_of_ports(s.drop_last(), f);
        if f(s.last()) > m {
            f(s.last())
        } else {
            m
        }
    }
}

/// The larger of two numbers.
pub open spec fn nat_max(a: nat, b: nat) -> nat {
    if a > b {
        a
    } else {
        b
    }
}

/// The widths of the ports panel's columns: the longest ip (at least 7),
/// private port, and public port (at least 6), as text.
pub open spec fn port_max_lens(s: Seq<PortFields>) -> (nat, nat, nat) {
    (
        nat_max(max_of_ports(s, |p: PortFields| ip_text_len(p)), 7),
        max_of_ports(s, |p: PortFields| private_text_len(p)),
        nat_max(max_of_ports(s, |p: PortFields| public_text_len(p)), 6),
    )
}

/// The widths of the ports panel's columns (see `port_max_lens`).
pub fn calculate_port_max_lens(ports: &Vec<ContainerPorts>) -> (r: (usize, usize, usize))
    ensures
        (r.0 as nat, r.1 as nat, r.2 as nat) == port_max_lens(ports_view(ports@)),
{
    let ghost v = ports_view(ports@);
    let mut ip: usize = 0;
    let mut private: usize = 0;
    let mut public: usize = 0;
    let mut i: usize = 0;
    while i < ports.len()
        invariant
            v == ports_view(ports@),
            i <= ports@.len(),
            ip as nat == max_of_ports(v.take(i as int), |p: PortFields| ip_text_len(p)),
            private as nat == max_of_ports(v.take(i as int), |p: PortFields| private_text_len(p)),
            public as nat == max_of_ports(v.take(i as int), |p: PortFields| public_text_len(p)),
        decreases ports@.len() - i,
    {
        let p = &ports[i];
        let a: usize = match &p.ip {
            Some(t) => text_byte_len(t.as_str()),
            None => 0,
        };
        let b: usize = decimal_len(p.private as u64);
        let c: usize = match p.public {
            Some(x) => decimal_len(x as u64),
            None => 0,
        };
        proof {
            assert(v.take(i + 1).drop_last() =~= v.take(i as int));
            assert(v.take(i + 1).last() == v[i as int]);
            assert(v[i as int] == p@);
        }
        if a > ip {
            ip = a;
        }
        if b > private {
            private = b;
        }
        if c > public {
            public = c;
        }
        i = i + 1;
    }
    proof {
        assert(v.take(ports@.len() as int) =~= v);
    }
    (if ip > 7 {
        ip
    } else {
        7
    }, private, if public > 6 {
        public
    } else {
        6
    })
}

/// A container as one row of the list shows it. The cpu sample is the bit
/// pattern of the `f64` percentage; the memory and network samples are
/// byte counts.
#[derive(Debug)]
pub struct ContainerView {
    pub id: ContainerId,
    pub name: String,
    pub image: String,
    pub state: State,
    pub status: String,
    pub cpu_stats: u64,
    pub mem_stats: u64,
    pub mem_limit: u64,
    pub rx: u64,
    pub tx: u64,
}

/// The plain values of a row.
pub struct RowView {
    pub id: Seq<char>,
    pub name: Seq<char>,
    pub image: Seq<char>,
    pub state: State,
    pub status: Seq<char>,
    pub cpu_stats: u64,
    pub mem_stats: u64,
    pub mem_limit: u64,
    pub rx: u64,
    pub tx: u64,
}

impl View for ContainerView {
    type V = RowView;

    open spec fn view(&self) -> RowView {
        RowView {
            id: self.id@,
            name: self.name@,
            image: self.image@,
            state: self.state,
            status: self.status@,
            cpu_stats: self.cpu_stats,
            mem_stats: self.mem_stats,
            mem_limit: self.mem_limit,
            rx: self.rx,
            tx: self.tx,
        }
    }
}

/// The plain values of a list of rows.
pub open spec fn rows_view(s: Seq<ContainerView>) -> Seq<RowView> {
    s.map_values(|c: ContainerView| c@)
}

/// The newest sample, or 0 when there is none.
pub open spec fn newest(s: Seq<u64>) -> u64 {
    if s.len() == 0 {
        0
    } else {
        s.last()
    }
}

/// The row for a container: its newest samples.
pub open spec fn row_of(c: ContainerItemView) -> RowView {
    RowView {
        id: c.id,
        name: c.name,
        image: c.image,
        state: c.state,
        status: c.status,
        cpu_stats: newest(c.cpu_stats),
        mem_stats: newest(c.mem_stats),
        mem_limit: c.mem_limit,
        rx: c.rx,
        tx: c.tx,
    }
}

/// The newest sample of a queue, or 0.
pub fn newest_sample(d: &VecDeque<u64>) -> (r: u64)
    ensures
        r == newest(d@),
{
    let n = d.len();
    if n == 0 {
        0
    } else {
        d[n - 1]
    }
}

/// The rows of the container list.
pub fn container_rows(items: &Vec<ContainerItem>) -> (r: Vec<ContainerView>)
    ensures
        rows_view(r@) == items_view(items@).map_values(|c: ContainerItemView| row_of(c)),
{
    let ghost v = items_view(items@);
    let mut r: Vec<ContainerView> = Vec::new();
    let mut i: usize = 0;
    while i < items.len()
        invariant
            v == items_view(items@),
            i <= items@.len(),
            rows_view(r@) == v.take(i as int).map_values(|c: ContainerItemView| row_of(c)),
        decreases items@.len() - i,
    {
        let c = &items[i];
        let row = ContainerView {
            id: c.id.duplicate(),
            name: c.name.clone(),
            image: c.image.clone(),
            state: c.state,
            status: c.status.clone(),
            cpu_stats: newest_sample(&c.cpu_stats),
            mem_stats: newest_sample(&c.mem_stats),
            mem_limit: c.mem_limit,
            rx: c.rx,
            tx: c.tx,
        };
        let ghost before = r@;
        r.push(row);
        proof {
            assert(v[i as int] == c@);
            assert(row@ == row_of(v[i as int]));
            assert(rows_view(r@) =~= rows_view(before).push(row@));
            assert(v.take(i + 1).map_values(|c: ContainerItemView| row_of(c)) =~= v.take(
                i as int,
            ).map_values(|c: ContainerItemView| row_of(c)).push(row_of(v[i as int])));
        }
        i = i + 1;
    }
    proof {
        assert(v.take(items@.len() as int) =~= v);
    }
    r
}

/// The width of a text column: the longest text (at least `min`), plus 2,
/// at most `cap`.
pub open spec fn column_width(lens: Seq<nat>, min: nat, cap: nat) -> nat {
    width_of(seq_max(lens), min, cap)
}

/// The width of a text column whose longest text is `longest` long.
pub open spec fn width_of(longest: nat, min: nat, cap: nat) -> nat {
    let w = nat_max(longest, min) + 2;
    if w > cap {
        cap
    } else {
        w
    }
}

/// The length of each row's `f` as text, in bytes.
pub open spec fn text_lens(rows: Seq<RowView>, f: spec_fn(RowView) -> Seq<char>) -> Seq<nat> {
    rows.map_values(|r: RowView| sat_usize(byte_len(f(r))))
}

/// The columns of the container list for `rows`: names, states, statuses
/// and images as wide as the longest (with a minimum and a cap), numbers
/// at fixed widths.
pub open spec fn columns_for(rows: Seq<RowView>) -> Columns {
    Columns {
        name: (Header::Name, column_width(text_lens(rows, |r: RowView| r.name), 4, 30) as u8),
        state: (Header::State, column_width(text_lens(rows, |r: RowView| state_label(r.state)), 5, 12) as u8),
        status: (Header::Status, column_width(text_lens(rows, |r: RowView| r.status), 6, 30) as u8),
        cpu: (Header::Cpu, 8),
        mem: (Header::Memory, 10, 10),
        id: (Header::Id, 8),
        image: (Header::Image, column_width(text_lens(rows, |r: RowView| r.image), 5, 40) as u8),
        net_rx: (Header::Rx, 10),
        net_tx: (Header::Tx, 10),
    }
}

fn width_from(longest: usize, min: usize, cap: usize) -> (w: u8)
    requires
        min + 2 <= cap <= 255,
    ensures
        w as nat == width_of(longest as nat, min as nat, cap as nat),
{
    let m = if longest > min {
        longest
    } else {
        min
    };
    if m >= cap - 2 {
        cap as u8
    } else {
        (m + 2) as u8
    }
}

proof fn lemma_seq_max_push(s: Seq<nat>, x: nat)
    ensures
        seq_max(s.push(x)) == nat_max(x, seq_max(s)),
{
    assert(s.push(x).drop_last() =~= s);
}

/// Calculate column widths from the rows (see `columns_for`).
pub fn calculate_columns(containers: &Vec<ContainerView>) -> (c: Columns)
    ensures
        c == columns_for(rows_view(containers@)),
{
    let ghost rows = rows_view(containers@);
    let mut name: usize = 0;
    let mut state: usize = 0;
    let mut status: usize = 0;
    let mut image: usize = 0;
    let mut i: usize = 0;
    while i < containers.len()
        invariant
            rows == rows_view(containers@),
            i <= containers@.len(),
            name as nat == seq_max(text_lens(rows.take(i as int), |r: RowView| r.name)),
            state as nat == seq_max(text_lens(rows.take(i as int), |r: RowView| state_label(r.state))),
            status as nat == seq_max(text_lens(rows.take(i as int), |r: RowView| r.status)),
            image as nat == seq_max(text_lens(rows.take(i as int), |r: RowView| r.image)),
        decreases containers@.len() - i,
    {
        let c = &containers[i];
        let a = text_byte_len(c.name.as_str());
        let b = text_byte_len(c.state.label());
        let d = text_byte_len(c.status.as_str());
        let e = text_byte_len(c.image.as_str());
        proof {
            let t = rows.take(i + 1);
            assert(t =~= rows.take(i as int).push(rows[i as int]));
            assert(rows[i as int] == c@);
            assert(text_lens(t, |r: RowView| r.name) =~= text_lens(rows.take(i as int), |r: RowView| r.name).push(a as nat));
            assert(text_lens(t, |r: RowView| state_label(r.state)) =~= text_lens(rows.take(i as int), |r: RowView| state_label(r.state)).push(b as nat));
            assert(text_lens(t, |r: RowView| r.status) =~= text_lens(rows.take(i as int), |r: RowView| r.status).push(d as nat));
            assert(text_lens(t, |r: RowView| r.image) =~= text_lens(rows.take(i as int), |r: RowView| r.image).push(e as nat));
            lemma_seq_max_push(text_lens(rows.take(i as int), |r: RowView| r.name), a as nat);
            lemma_seq_max_push(text_lens(rows.take(i as int), |r: RowView| state_label(r.state)), b as nat);
            lemma_seq_max_push(text_lens(rows.take(i as int), |r: RowView| r.status), d as nat);
            lemma_seq_max_push(text_lens(rows.take(i as int), |r: RowView| r.image), e as nat);
        }
        if a > name {
            name = a;
        }
        if b > state {
            state = b;
        }
        if d > status {
            status = d;
        }
        if e > image {
            image = e;
        }
        i = i + 1;
    }
    proof {
        assert(rows.take(containers@.len() as int) =~= rows);
    }
    let wn = width_from(name, 4, 30);
    let ws = width_from(state, 5, 12);
    let wt = width_from(status, 6, 30);
    let wi = width_from(image, 5, 40);
    Columns {
        name: (Header::Name, wn),
        state: (Header::State, ws),
        status: (Header::Status, wt),
        cpu: (Header::Cpu, 8),
        mem: (Header::Memory, 10, 10),
        id: (Header::Id, 8),
        image: (Header::Image, wi),
        net_rx: (Header::Rx, 10),
        net_tx: (Header::Tx, 10),
    }
}

/// The title of the container list: "Containers" when there are none,
/// "Containers i/n" with the selected one's place, else "Containers [n]".
pub open spec fn container_title(count: nat, selected: Option<usize>) -> Seq<char> {
    if count == 0 {
        "Containers"@
    } else {
        match selected {
            Some(i) => "Containers "@ + decimal((i + 1) as nat) + "/"@ + decimal(count),
            None => "Containers ["@ + decimal(count) + "]"@,
        }
    }
}

/// The title of the container list (see `container_title`).
pub fn create_container_title(count: usize, selected: Option<usize>) -> (s: String)
    requires
        selected matches Some(i) ==> i < u64::MAX,
        count <= u64::MAX,
    ensures
        s@ == container_title(count as nat, selected),
{
    let mut s = String::new();
    if count == 0 {
        push_str(&mut s, "Containers");
    } else {
        match selected {
            Some(i) => {
                push_str(&mut s, "Containers ");
                push_decimal(&mut s, (i as u64) + 1);
                push_str(&mut s, "/");
                push_decimal(&mut s, count as u64);
            },
            None => {
                push_str(&mut s, "Containers [");
                push_decimal(&mut s, count as u64);
                push_str(&mut s, "]");
            },
        }
    }
    proof {
        assert(s@ =~= container_title(count as nat, selected));
    }
    s
}

/// The field the filter matches for the filter header: name, image,
/// status (for the state too), or all fields for any other header.
pub open spec fn filter_for(h: Header) -> FilterBy {
    match h {
        Header::Name => FilterBy::Name,
        Header::Image => FilterBy::Image,
        Header::Status | Header::State => FilterBy::Status,
        _ => FilterBy::All,
    }
}

/// The field the filter matches (see `filter_for`).
pub fn filter_by_for(h: Header) -> (f: FilterBy)
    ensures
        f == filter_for(h),
{
    match h {
        Header::Name => FilterBy::Name,
        Header::Image => FilterBy::Image,
        Header::Status | Header::State => FilterBy::Status,
        _ => FilterBy::All,
    }
}

/// The largest sample, or 0 when there is none.
pub open spec fn largest(s: Seq<u64>) -> u64
    decreases s.len(),
{
    if s.len() == 0 {
        0
    } else {
        let m = largest(s.drop_last());
        if s.last() > m {
            s.last()
        } else {
            m
        }
    }
}

/// Chart data of the selected container. CPU samples are the bit patterns
/// of the `f64` percentages; their largest value, a float, is found where
/// the chart is drawn.
#[derive(Debug)]
pub struct ChartData {
    pub cpu_samples: Vec<u64>,
    pub mem_samples: Vec<u64>,
    pub max_mem: u64,
    pub state: State,
    pub current_cpu: u64,
    pub current_mem: u64,
}

/// Port information for the selected container.
#[derive(Debug)]
pub struct PortView {
    pub ports: Vec<ContainerPorts>,
    pub state: State,
    pub max_lens: (usize, usize, usize),
}

/// Log view data.
#[derive(Debug)]
pub struct LogView {
    pub logs: Vec<String>,
    pub title: String,
    pub is_loading: bool,
}

/// Commands view data.
#[derive(Debug)]
pub struct CommandsView {
    pub commands: Vec<DockerCommand>,
}

/// All data needed for rendering a frame.
#[derive(Debug)]
pub struct FrameViewModel {
    pub containers: Vec<ContainerView>,
    pub selected_container: Option<usize>,
    pub chart_data: Option<ChartData>,
    pub color_logs: bool,
    pub columns: Columns,
    pub container_title: String,
    pub delete_confirm: Option<ContainerId>,
    pub filter_by: FilterBy,
    pub filter_term: Option<String>,
    pub has_containers: bool,
    pub info_text: Option<(String, u64)>,
    pub is_loading: bool,
    pub loading_icon: String,
    pub log_view: LogView,
    pub log_height: u16,
    pub show_logs: bool,
    pub port_view: Option<PortView>,
    pub commands_view: CommandsView,
    pub scroll_title: Option<String>,
    pub sorted_by: Option<(Header, SortedOrder)>,
    pub status: StatusSet,
}

impl Default for FrameViewModel {
    /// An empty frame: no containers or selection, no charts or ports, the
    /// starting column widths, no dialog, filter or info, logs shown at a
    /// height of 4, unsorted, no status.
    fn default() -> (vm: Self)
        ensures
            vm.containers@.len() == 0,
            vm.selected_container is None,
            vm.chart_data is None,
            !vm.color_logs,
            vm.columns == header_columns(),
            vm.container_title@ == Seq::<char>::empty(),
            vm.delete_confirm is None,
            vm.filter_by == FilterBy::Name,
            vm.filter_term is None,
            !vm.has_containers,
            vm.info_text is None,
            !vm.is_loading,
            vm.loading_icon@ == Seq::<char>::empty(),
            vm.log_view.logs@.len() == 0,
            vm.log_view.title@ == Seq::<char>::empty(),
            !vm.log_view.is_loading,
            vm.log_height == 4,
            vm.show_logs,
            vm.port_view is None,
            vm.commands_view.commands@.len() == 0,
            vm.scroll_title is None,
            vm.sorted_by is None,
            vm.status@ == Set::<Status>::empty(),
    {
        FrameViewModel {
            containers: Vec::new(),
            selected_container: None,
            chart_data: None,
            color_logs: false,
            columns: Columns::new(),
            container_title: String::new(),
            delete_confirm: None,
            filter_by: FilterBy::Name,
            filter_term: None,
            has_containers: false,
            info_text: None,
            is_loading: false,
            loading_icon: String::new(),
            log_view: LogView { logs: Vec::new(), title: String::new(), is_loading: false },
            log_height: 4,
            show_logs: true,
            port_view: None,
            commands_view: CommandsView { commands: Vec::new() },
            scroll_title: None,
            sorted_by: None,
            status: StatusSet::new(),
        }
    }
}

/// The selected container, if the selection is on one.
pub open spec fn selected_item(items: Seq<ContainerItemView>, sel: Option<usize>) -> Option<ContainerItemView> {
    match sel {
        Some(i) => if i < items.len() {
            Some(items[i as int])
        } else {
            None
        },
        None => None,
    }
}

/// The title of the logs of a container: "Logs - name - image".
pub open spec fn log_title(c: ContainerItemView) -> Seq<char> {
    "Logs - "@ + c.name + " - "@ + c.image
}

/// The chart data is that of container `c`.
pub open spec fn chart_matches(d: ChartData, c: ContainerItemView) -> bool {
    &&& d.cpu_samples@ == c.cpu_stats
    &&& d.mem_samples@ == c.mem_stats
    &&& d.max_mem == largest(c.mem_stats)
    &&& d.state == c.state
    &&& d.current_cpu == newest(c.cpu_stats)
    &&& d.current_mem == newest(c.mem_stats)
}

/// The port view is that of container `c`: its ports sorted, and the
/// widths of their columns.
pub open spec fn ports_match(p: PortView, c: ContainerItemView) -> bool {
    &&& stable_sort_of(c.ports, ports_view(p.ports@))
    &&& p.state == c.state
    &&& (p.max_lens.0 as nat, p.max_lens.1 as nat, p.max_lens.2 as nat) == port_max_lens(ports_view(p.ports@))
}

/// A copy of a queue of samples as a list.
pub fn samples_vec(d: &VecDeque<u64>) -> (r: Vec<u64>)
    ensures
        r@ == d@,
{
    let mut r: Vec<u64> = Vec::new();
    let mut i: usize = 0;
    while i < d.len()
        invariant
            i <= d@.len(),
            r@ == d@.take(i as int),
        decreases d@.len() - i,
    {
        r.push(d[i]);
        proof {
            assert(d@.take(i + 1) =~= d@.take(i as int).push(d@[i as int]));
        }
        i = i + 1;
    }
    proof {
        assert(d@.take(d@.len() as int) =~= d@);
    }
    r
}

/// The largest sample of a queue, or 0.
pub fn largest_sample(d: &VecDeque<u64>) -> (m: u64)
    ensures
        m == largest(d@),
{
    let mut m: u64 = 0;
    let mut i: usize = 0;
    while i < d.len()
        invariant
            i <= d@.len(),
            m == largest(d@.take(i as int)),
        decreases d@.len() - i,
    {
        proof {
            assert(d@.take(i + 1).drop_last() =~= d@.take(i as int));
        }
        if d[i] > m {
            m = d[i];
        }
        i = i + 1;
    }
    proof {
        assert(d@.take(d@.len() as int) =~= d@);
    }
    m
}

/// A copy of a log buffer as a list.
pub fn log_lines(d: &VecDeque<String>) -> (r: Vec<String>)
    ensures
        logs_view(r@) == logs_view(d@),
{
    let mut r: Vec<String> = Vec::new();
    let mut i: usize = 0;
    while i < d.len()
        invariant
            i <= d@.len(),
            logs_view(r@) == logs_view(d@.take(i as int)),
        decreases d@.len() - i,
    {
        let ghost before = r@;
        let line = d[i].clone();
        r.push(line);
        proof {
            assert(logs_view(r@) =~= logs_view(before).push(line@));
            assert(logs_view(d@.take(i + 1)) =~= logs_view(d@.take(i as int)).push(d@[i as int]@));
        }
        i = i + 1;
    }
    proof {
        assert(d@.take(d@.len() as int) =~= d@);
    }
    r
}

/// `vm` is the frame of the container state `ui` and the interface state
/// `g` (see `FrameViewModel::from_state`).
pub open spec fn frame_of(vm: FrameViewModel, ui: UIContainerState, g: GuiView, logs_loading: bool) -> bool {
    &&& rows_view(vm.containers@) == ui.items().map_values(|c: ContainerItemView| row_of(c))
    &&& vm.selected_container == ui.containers.selected
    &&& match selected_item(ui.items(), ui.containers.selected) {
        Some(c) => {
            &&& vm.chart_data matches Some(d) && chart_matches(d, c)
            &&& vm.port_view matches Some(p) && ports_match(p, c)
            &&& vm.log_view.title@ == log_title(c)
        },
        None => {
            &&& vm.chart_data is None
            &&& vm.port_view is None
            &&& vm.log_view.title@ == Seq::<char>::empty()
        }
    }
    &&& vm.color_logs
    &&& vm.columns == columns_for(rows_view(vm.containers@))
    &&& vm.container_title@ == container_title(ui.items().len(), ui.containers.selected)
    &&& opt_id_view(vm.delete_confirm) == g.delete_container
    &&& vm.filter_by == filter_for(ui.filter_by)
    &&& match vm.filter_term {
        Some(t) => ui.filter_term@.len() > 0 && t@ == ui.filter_term@,
        None => ui.filter_term@.len() == 0
    }
    &&& vm.has_containers == (ui.items().len() > 0)
    &&& match vm.info_text {
        Some((t, at)) => g.info_box == Some((t@, at)),
        None => g.info_box is None
    }
    &&& vm.is_loading == view_is_loading(g)
    &&& vm.loading_icon@ == seq![
        if view_is_loading(g) {
            frame_char(g.loading_index)
        } else {
            ' '
        }
    ]
    &&& logs_view(vm.log_view.logs@) == logs_view(ui.logs@)
    &&& vm.log_view.is_loading == logs_loading
    &&& vm.log_height == g.log_height
    &&& vm.show_logs == g.show_logs
    &&& vm.commands_view.commands@ == ui.docker_commands.items@
    &&& match vm.scroll_title {
        Some(t) => ui.logs@.len() > 0 && t@ == " 1/80 → "@,
        None => ui.logs@.len() == 0
    }
    &&& vm.sorted_by == match ui.sort_header {
        Some(h) => Some(
            (
                h,
                if ui.sort_ascending {
                    SortedOrder::Asc
                } else {
                    SortedOrder::Desc
                },
            ),
        ),
        None => None
    }
    &&& vm.status@ == g.status
}

impl FrameViewModel {
    /// Gather what a frame shows from the container state and the interface
    /// state. `logs_loading` tells whether the logs are still being fetched.
    pub fn from_state(ui_state: &UIContainerState, gui_state: &GuiState, logs_loading: bool) -> (vm: Self)
        requires
            gui_state.wf(),
            ui_state.items().len() < u64::MAX,
            ui_state.containers.selected matches Some(i) ==> i < u64::MAX,
        ensures
            frame_of(vm, *ui_state, gui_state@, logs_loading),
    {
        let items = &ui_state.containers.items;
        let containers = container_rows(items);
        let selected = ui_state.containers.selected;
        let sel_idx: Option<usize> = match selected {
            Some(i) => if i < items.len() {
                Some(i)
            } else {
                None
            },
            None => None,
        };
        let (chart_data, port_view, title) = match sel_idx {
            Some(i) => {
                let c = &items[i];
                proof {
                    assert(ui_state.items()[i as int] == c@);
                }
                let chart = ChartData {
                    cpu_samples: samples_vec(&c.cpu_stats),
                    mem_samples: samples_vec(&c.mem_stats),
                    max_mem: largest_sample(&c.mem_stats),
                    state: c.state,
                    current_cpu: newest_sample(&c.cpu_stats),
                    current_mem: newest_sample(&c.mem_stats),
                };
                let ports = sort_ports(&c.ports);
                let max_lens = calculate_port_max_lens(&ports);
                let pv = PortView { ports, state: c.state, max_lens };
                let mut title = String::new();
                push_str(&mut title, "Logs - ");
                push_str(&mut title, c.name.as_str());
                push_str(&mut title, " - ");
                push_str(&mut title, c.image.as_str());
                proof {
                    assert(title@ =~= log_title(c@));
                }
                (Some(chart), Some(pv), title)
            },
            None => (None, None, String::new()),
        };
        let columns = calculate_columns(&containers);
        let count = items.len();
        let container_title = create_container_title(count, selected);
        let filter_term = if ui_state.filter_term.as_str().is_empty() {
            None
        } else {
            Some(ui_state.filter_term.clone())
        };
        let mut loading_icon = String::new();
        push_char(&mut loading_icon, gui_state.get_loading());
        proof {
            assert(loading_icon@ =~= seq![
                if view_is_loading(gui_state@) {
                    frame_char(gui_state@.loading_index)
                } else {
                    ' '
                },
            ]);
        }
        let scroll_title = if ui_state.logs.len() == 0 {
            None
        } else {
            let mut t = String::new();
            push_str(&mut t, " 1/80 → ");
            Some(t)
        };
        let sorted_by = match ui_state.sort_header {
            Some(h) => Some(
                (
                    h,
                    if ui_state.sort_ascending {
                        SortedOrder::Asc
                    } else {
                        SortedOrder::Desc
                    },
                ),
            ),
            None => None,
        };
        FrameViewModel {
            has_containers: count > 0,
            containers,
            selected_container: selected,
            chart_data,
            color_logs: true,
            columns,
            container_title,
            delete_confirm: gui_state.get_delete_container(),
            filter_by: filter_by_for(ui_state.filter_by),
            filter_term,
            info_text: gui_state.info_box(),
            is_loading: gui_state.is_loading(),
            loading_icon,
            log_view: LogView { logs: log_lines(&ui_state.logs), title, is_loading: logs_loading },
            log_height: gui_state.get_log_height(),
            show_logs: gui_state.get_show_logs(),
            port_view,
            commands_view: CommandsView { commands: ui_state.docker_commands.items.clone() },
            scroll_title,
            sorted_by,
            status: gui_state.get_status(),
        }
    }
}


/// The sample shown is the one pushed last: after any sample `x` is added
/// to a container's samples, the newest sample is `x`; with no samples, 0.
pub proof fn law_newest_is_last_pushed(buf: Seq<u64>, x: u64)
    ensures
        newest(crate::ui_state::push_sample(buf, x)) == x,
        newest(Seq::<u64>::empty()) == 0,
{
}

} // verus!
