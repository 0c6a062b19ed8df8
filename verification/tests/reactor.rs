use ring_reactor::admission::AdmissionQueue;
use ring_reactor::connect::Connect;
use ring_reactor::demo::{driver, DemoDriver, Poll};
use ring_reactor::dispatch::complete;
use ring_reactor::event::{Event, Nop, OpData, SubmissionSegment};
use ring_reactor::ring::SubmissionQueue;
use ring_reactor::reactor::Reactor;
use ring_reactor::{CQ_ENTRIES, SQ_ENTRIES};

fn ready_token(res: Poll<ring_reactor::event::Completion>) -> u64 {
    match res {
        Poll::Ready(c) => c.op_id,
        Poll::Pending => panic!("expected a granted prepare"),
    }
}

fn is_pending<T>(res: &Poll<T>) -> bool {
    matches!(res, Poll::Pending)
}

#[test]
fn admission_grants_in_request_order() {
    let mut q = AdmissionQueue::new(2);
    let a = q.access();
    let b = q.access();
    // b is behind a: polling b grants nothing, polling a does.
    assert!(!q.poll(b));
    assert!(q.poll(a));
    assert_eq!(q.outstanding, 1);
    assert!(q.poll(b));
    assert_eq!(q.outstanding, 2);
    // Capacity exhausted: a new request stays blocked until a release.
    let c = q.access();
    assert!(!q.poll(c));
    assert!(q.outstanding <= q.capacity);
    q.release(1);
    assert!(q.poll(c));
    assert_eq!(q.outstanding, 2);
    assert!(q.outstanding <= q.capacity);
}

#[test]
fn ticket_gate_blocks_at_completion_capacity() {
    // Submission queue has plenty of room; the completion queue's capacity
    // (two tickets) is what gates admission.
    let mut r = Reactor::new(8, 2);
    let mut d = driver();
    let mut first = Nop;
    let mut second = Nop;
    let mut third = Nop;

    ready_token(d.poll_prepare(&mut r, &mut first));
    ready_token(d.poll_prepare(&mut r, &mut second));
    assert_eq!(r.admission.outstanding, 2);

    // Both tickets are out: the third prepare suspends.
    let blocked = d.poll_prepare(&mut r, &mut third);
    assert!(is_pending(&blocked));
    assert!(r.admission.outstanding <= r.admission.capacity);

    // Flush, let the kernel finish one operation, drain it: one ticket
    // comes back and the suspended prepare is granted on the next poll.
    match d.poll_submit(&mut r, true) {
        Poll::Ready(flushed) => assert_eq!(flushed, 2),
        Poll::Pending => panic!("submit never suspends"),
    }
    r.kernel_complete(0);
    let drained = complete(&mut r);
    assert_eq!(drained.len(), 1);
    assert_eq!(r.admission.outstanding, 1);
    ready_token(d.poll_prepare(&mut r, &mut third));
    assert_eq!(r.admission.outstanding, 2);
}

#[test]
fn forty_ops_share_one_ring() {
    // Ring with submission capacity 32, completion capacity 64: forty
    // one-slot operations all go through; the thirty-third forces the one
    // and only internal flush, and no completion is ever lost.
    let mut r = Reactor::new(SQ_ENTRIES, CQ_ENTRIES);
    let mut d = driver();

    for i in 0..40u64 {
        let mut ev = Nop;
        let token = ready_token(d.poll_prepare(&mut r, &mut ev));
        assert_eq!(token, i);
        if i < 32 {
            // The first thirty-two fit without any forced flush.
            assert_eq!(r.ring.in_kernel.len(), 0);
            assert_eq!(r.ring.sq.entries.len(), (i + 1) as usize);
        } else {
            // Preparing the thirty-third flushed the full queue once.
            assert_eq!(r.ring.in_kernel.len(), 32);
            assert_eq!(r.ring.sq.entries.len(), (i - 31) as usize);
        }
        assert!(r.admission.outstanding <= r.admission.capacity);
    }
    assert_eq!(r.admission.outstanding, 40);

    match d.poll_submit(&mut r, true) {
        Poll::Ready(flushed) => assert_eq!(flushed, 8),
        Poll::Pending => panic!("submit never suspends"),
    }
    assert_eq!(r.ring.in_kernel.len(), 40);

    // The kernel finishes everything, in order of its choosing; the
    // completion queue has headroom for all of it.
    while r.ring.in_kernel.len() > 0 {
        let last = r.ring.in_kernel.len() - 1;
        r.kernel_complete(if last % 2 == 0 { 0 } else { last });
        assert!(r.ring.cq.queue.len() <= r.ring.cq.capacity);
    }
    assert_eq!(r.ring.cq.queue.len(), 40);

    // One dispatch pass drains them all and returns every ticket.
    let drained = complete(&mut r);
    assert_eq!(drained.len(), 40);
    assert_eq!(r.admission.outstanding, 0);
}

#[test]
fn full_queue_flushes_and_retries() {
    // One-slot submission queue, already holding a filled-but-unflushed
    // slot: the next prepare finds no room, flushes internally, and the
    // retry succeeds on the freed slot.
    let mut r = Reactor::new(1, 4);
    let mut d = driver();
    let mut first = Nop;
    let mut second = Nop;

    let a = ready_token(d.poll_prepare(&mut r, &mut first));
    assert_eq!(r.ring.sq.entries.len(), 1);
    assert_eq!(r.ring.in_kernel.len(), 0);

    let b = ready_token(d.poll_prepare(&mut r, &mut second));
    // The first operation went to the kernel in the internal flush; the
    // second sits in the freed slot.
    assert_eq!(r.ring.in_kernel, vec![a]);
    assert_eq!(r.ring.sq.entries.len(), 1);
    assert_eq!(r.ring.sq.ops, vec![b]);
}

#[test]
fn prepare_consumes_announced_slots() {
    // The slots a prepare writes must equal what sqes_needed announced.
    let mut connect = Connect { fd: 7, addr: vec![127, 0, 0, 1, 31, 144] };
    let needed = connect.sqes_needed();
    let mut seg = SubmissionSegment::new(0, needed as usize);
    connect.prepare(&mut seg);
    assert_eq!(seg.filled(), needed as usize);

    let mut nop = Nop;
    let needed = nop.sqes_needed();
    let mut seg = SubmissionSegment::new(1, needed as usize);
    nop.prepare(&mut seg);
    assert_eq!(seg.filled(), needed as usize);
}

#[test]
fn abandoned_resources_survive_until_completion() {
    let mut r = Reactor::new(4, 4);
    let mut d = driver();
    let mut conn = Connect { fd: 3, addr: vec![10, 0, 0, 1] };
    let mut other = Nop;

    let token = match d.poll_prepare(&mut r, &mut conn) {
        Poll::Ready(c) => c,
        Poll::Pending => panic!("expected a granted prepare"),
    };
    let conn_op = token.op_id;
    let other_op = ready_token(d.poll_prepare(&mut r, &mut other));

    // The connect future is dropped before its completion: its address
    // buffer is parked, exactly once, rather than freed.
    r.abandon(token, conn);
    assert!(r.cancellation_pending(conn_op));

    match d.poll_submit(&mut r, true) {
        Poll::Ready(flushed) => assert_eq!(flushed, 2),
        Poll::Pending => panic!("submit never suspends"),
    }

    // The kernel finishes the other operation first; draining it must not
    // free the abandoned operation's buffer.
    let finished = r.kernel_complete(1);
    assert_eq!(finished, other_op);
    let drained = complete(&mut r);
    assert_eq!(drained, vec![other_op]);
    assert!(r.cancellation_pending(conn_op));

    // Only once the abandoned operation's own completion is observed does
    // the buffer go.
    r.kernel_complete(0);
    let drained = complete(&mut r);
    assert_eq!(drained, vec![conn_op]);
    assert!(!r.cancellation_pending(conn_op));
}

#[test]
fn ticket_ledger_balances() {
    // Tickets released over the run equal completions drained, pass by
    // pass: the outstanding count drops by exactly the drained count.
    let mut r = Reactor::new(8, 8);
    let mut d = driver();
    for _ in 0..3 {
        let mut ev = Nop;
        ready_token(d.poll_prepare(&mut r, &mut ev));
    }
    match d.poll_submit(&mut r, true) {
        Poll::Ready(flushed) => assert_eq!(flushed, 3),
        Poll::Pending => panic!("submit never suspends"),
    }

    r.kernel_complete(0);
    r.kernel_complete(0);
    let before = r.admission.outstanding;
    let drained = complete(&mut r);
    assert_eq!(before - r.admission.outstanding, drained.len());
    assert_eq!(drained.len(), 2);

    r.kernel_complete(0);
    let before = r.admission.outstanding;
    let drained = complete(&mut r);
    assert_eq!(before - r.admission.outstanding, drained.len());
    assert_eq!(r.admission.outstanding, 0);
}

#[test]
fn cancel_packages_exactly_the_kernel_visible_resource() {
    let conn = Connect { fd: 5, addr: vec![192, 168, 1, 9] };
    let parked = conn.cancel();
    assert!(parked.holds_resource());
    assert_eq!(parked.resource, Some(vec![192, 168, 1, 9]));

    let parked = Nop.cancel();
    assert!(!parked.holds_resource());
    assert_eq!(parked.resource, None);
}

#[test]
fn clones_share_the_gate_without_extra_tickets() {
    let mut r = Reactor::new(4, 4);
    let mut d = driver();
    let mut ev = Nop;
    ready_token(d.poll_prepare(&mut r, &mut ev));
    let outstanding = r.admission.outstanding;

    // Fresh handles — cloned, defaulted or built — hold no access and no
    // ticket; constructing them changes nothing in the reactor.
    let d2 = d.clone();
    let d3 = DemoDriver::default();
    let d4 = driver();
    assert_eq!(d2.access, None);
    assert_eq!(d3.access, None);
    assert_eq!(d4.access, None);
    assert_eq!(r.admission.outstanding, outstanding);
}

#[test]
fn lazy_submit_defers_the_flush() {
    let mut r = Reactor::new(8, 8);
    let mut d = driver();
    let mut ev = Nop;
    ready_token(d.poll_prepare(&mut r, &mut ev));

    match d.poll_submit(&mut r, false) {
        Poll::Ready(flushed) => assert_eq!(flushed, 0),
        Poll::Pending => panic!("submit never suspends"),
    }
    assert_eq!(r.ring.in_kernel.len(), 0);
    assert_eq!(r.ring.sq.entries.len(), 1);

    match d.poll_submit(&mut r, true) {
        Poll::Ready(flushed) => assert_eq!(flushed, 1),
        Poll::Pending => panic!("submit never suspends"),
    }
    assert_eq!(r.ring.in_kernel.len(), 1);
    assert_eq!(r.ring.sq.entries.len(), 0);
}

#[test]
fn connect_prepare_writes_the_address() {
    let mut r = Reactor::new(4, 4);
    let mut d = driver();
    let mut conn = Connect { fd: 9, addr: vec![1, 2, 3, 4] };
    ready_token(d.poll_prepare(&mut r, &mut conn));
    assert_eq!(r.ring.sq.entries.len(), 1);
    match &r.ring.sq.entries[0].data {
        OpData::Connect { fd, addr } => {
            assert_eq!(*fd, 9);
            assert_eq!(addr, &vec![1, 2, 3, 4]);
        }
        OpData::Nop => panic!("expected a connect slot"),
    }
    // The event still owns its address: the kernel-visible copy does not
    // steal the buffer whose lifetime cancellation would have to extend.
    assert_eq!(conn.addr, vec![1, 2, 3, 4]);
}

#[test]
fn reservation_is_all_or_nothing() {
    let mut sq = SubmissionQueue::new(2);
    assert!(sq.prepare(0, 3).is_none());

    let mut seg = sq.prepare(0, 2).expect("two slots are free");
    seg.fill_next(OpData::Nop);
    seg.fill_next(OpData::Nop);
    sq.install(seg);
    assert_eq!(sq.entries.len(), 2);

    // The queue is full: even a single slot is refused until a flush.
    assert!(sq.prepare(1, 1).is_none());
}
