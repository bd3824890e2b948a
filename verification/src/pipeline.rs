//! The per-chain task and the queue drain.
//!
//! For each popped chain: remember the writer's available bytes as the used
//! length the guest will be told (status byte included), split the status
//! byte off the writer, execute the request, turn failure into a status
//! code, write the one status byte, add the chain to the used ring and
//! signal the interrupt.  A failure inside execution is never propagated
//! upward; it becomes a status code.

use vstd::prelude::*;

use crate::block_defs::BlockId;
use crate::block_defs::ExecuteError;
use crate::block_defs::spec_status;
use crate::block_defs::VIRTIO_BLK_S_OK;
use crate::block_exec::execute_request;
use crate::block_exec::execute_spec;
use crate::desc_chain::DescriptorChain;
use crate::disk_state::DiskState;
use crate::flush::FlushTimer;
use crate::virtqueue::Interrupt;
use crate::virtqueue::Queue;
use crate::virtqueue::used_view;
use crate::virtqueue::UsedChain;

verus! {

/// The status byte that reports the outcome of a request.
pub open spec fn status_byte_of(res: Result<(), ExecuteError>) -> u8 {
    match res {
        Ok(_) => VIRTIO_BLK_S_OK,
        Err(e) => spec_status(e),
    }
}

/// Outcome of processing one chain: the used length reported to the guest,
/// the bytes written into the data and status regions, and the disk and
/// flush-timer state after.
pub struct ProcOutcome {
    pub used_len: u32,
    pub wrote: Seq<u8>,
    pub status: Seq<u8>,
    pub disk: Seq<u8>,
    pub timer_armed: bool,
    pub timer_delay: u64,
    pub armed: bool,
}

/// The transition function of one chain.  `wcap` is the writer's total
/// capacity.  A writer without room for even the status byte fails with
/// `MissingStatus` and nothing is written; otherwise the request runs on the
/// first `wcap - 1` bytes, its outcome becomes the status byte, and the used
/// length is the writer's original available bytes either way.
pub open spec fn process_spec(
    req: Seq<u8>,
    wcap: int,
    disk: Seq<u8>,
    disk_size: u64,
    read_only: bool,
    id: Option<BlockId>,
    sparse: bool,
    timer_armed: bool,
    timer_delay: u64,
    armed: bool,
) -> ProcOutcome {
    if wcap == 0 {
        ProcOutcome {
            used_len: 0,
            wrote: Seq::<u8>::empty(),
            status: Seq::<u8>::empty(),
            disk,
            timer_armed,
            timer_delay,
            armed,
        }
    } else {
        let out = execute_spec(
            req,
            wcap - 1,
            disk,
            disk_size,
            read_only,
            id,
            sparse,
            timer_armed,
            timer_delay,
            armed,
        );
        ProcOutcome {
            used_len: wcap as u32,
            wrote: out.wrote,
            status: seq![status_byte_of(out.res)],
            disk: out.disk,
            timer_armed: out.timer_armed,
            timer_delay: out.timer_delay,
            armed: out.armed,
        }
    }
}

/// Processes one request: splits the status byte off the writer, executes,
/// and writes exactly one status byte.  Returns the used length to report -
/// the writer's original available bytes - or `MissingStatus` if the writer
/// has no room for the status byte.
pub fn process_one_request(
    avail_desc: &mut DescriptorChain,
    disk_state: &mut DiskState,
    flush_timer: &mut FlushTimer,
    flush_timer_armed: &mut bool,
) -> (res: Result<usize, ExecuteError>)
    requires
        old(avail_desc).wf(),
        old(avail_desc).writer.contents() == Seq::<u8>::empty(),
        old(avail_desc).status@ == Seq::<u8>::empty(),
        old(disk_state).wf(),
    ensures
        final(avail_desc).wf(),
        final(disk_state).wf(),
        final(avail_desc).id == old(avail_desc).id,
        final(disk_state).read_only == old(disk_state).read_only,
        final(disk_state).id == old(disk_state).id,
        final(disk_state).worker_shared_state == old(disk_state).worker_shared_state,
        old(avail_desc).writer.capacity() == 0 ==> res == Err::<usize, ExecuteError>(
            ExecuteError::MissingStatus,
        ),
        old(avail_desc).writer.capacity() > 0 ==> res == Ok::<usize, ExecuteError>(
            old(avail_desc).writer.capacity() as usize,
        ),
        ({
            let p = process_spec(
                old(avail_desc).reader.remaining(),
                old(avail_desc).writer.capacity(),
                old(disk_state).contents(),
                old(disk_state).size(),
                old(disk_state).read_only,
                old(disk_state).id,
                old(disk_state).worker_shared_state.sparse,
                old(flush_timer).is_armed(),
                old(flush_timer).delay(),
                *old(flush_timer_armed),
            );
            &&& final(avail_desc).writer.contents() == p.wrote
            &&& final(avail_desc).status@ == p.status
            &&& final(disk_state).contents() == p.disk
            &&& final(flush_timer).is_armed() == p.timer_armed
            &&& final(flush_timer).delay() == p.timer_delay
            &&& *final(flush_timer_armed) == p.armed
        }),
{
    // The guest's expected used length includes the status byte region, so
    // it is remembered before anything is consumed.
    let available_bytes = avail_desc.writer.available_bytes();
    let status_offset = match available_bytes.checked_sub(1) {
        Some(o) => o,
        None => {
            return Err(ExecuteError::MissingStatus);
        },
    };
    let mut status_writer = avail_desc.writer.split_at(status_offset);

    let status: u8 = match execute_request(
        &mut avail_desc.reader,
        &mut avail_desc.writer,
        disk_state,
        flush_timer,
        flush_timer_armed,
    ) {
        Ok(()) => VIRTIO_BLK_S_OK,
        // The failure becomes a status code and is never propagated.  Of
        // all failures, only `Unsupported(GET_ID)` is not worth a log line:
        // it is routine when no ID is configured.
        Err(e) => e.status(),
    };

    let mut sv: Vec<u8> = Vec::new();
    sv.push(status);
    let ok = status_writer.write_all(&sv);
    assert(ok);
    avail_desc.status = status_writer.into_vec();
    proof {
        assert(avail_desc.status@ =~= seq![status]);
    }
    Ok(available_bytes)
}

/// Processes one descriptor chain: executes the request, adds the chain to
/// the used ring with the remembered length (zero if the status byte had no
/// room), and signals the interrupt.
pub fn process_one_chain(
    queue: &mut Queue,
    avail_desc: DescriptorChain,
    disk_state: &mut DiskState,
    interrupt: &mut Interrupt,
    flush_timer: &mut FlushTimer,
    flush_timer_armed: &mut bool,
)
    requires
        old(queue).wf(),
        avail_desc.wf(),
        avail_desc.writer.contents() == Seq::<u8>::empty(),
        avail_desc.status@ == Seq::<u8>::empty(),
        old(disk_state).wf(),
    ensures
        final(queue).wf(),
        final(disk_state).wf(),
        final(queue).size() == old(queue).size(),
        final(queue).avail_chains() == old(queue).avail_chains(),
        final(disk_state).read_only == old(disk_state).read_only,
        final(disk_state).id == old(disk_state).id,
        final(disk_state).worker_shared_state == old(disk_state).worker_shared_state,
        final(interrupt).is_signaled(),
        final(interrupt).is_config_changed() == old(interrupt).is_config_changed(),
        ({
            let p = process_spec(
                avail_desc.reader.remaining(),
                avail_desc.writer.capacity(),
                old(disk_state).contents(),
                old(disk_state).size(),
                old(disk_state).read_only,
                old(disk_state).id,
                old(disk_state).worker_shared_state.sparse,
                old(flush_timer).is_armed(),
                old(flush_timer).delay(),
                *old(flush_timer_armed),
            );
            &&& final(queue).used_ring().len() == old(queue).used_ring().len() + 1
            &&& final(queue).used_ring().subrange(0, old(queue).used_ring().len() as int) == old(
                queue,
            ).used_ring()
            &&& used_view(final(queue).used_ring().last()) == (
                avail_desc.id,
                p.used_len,
                p.wrote,
                p.status,
            )
            &&& final(disk_state).contents() == p.disk
            &&& final(flush_timer).is_armed() == p.timer_armed
            &&& final(flush_timer).delay() == p.timer_delay
            &&& *final(flush_timer_armed) == p.armed
        }),
{
    let mut chain = avail_desc;
    proof {
        chain.writer.lemma_wf_bounds();
    }
    let len: u32 = match process_one_request(&mut chain, disk_state, flush_timer, flush_timer_armed) {
        Ok(l) => l as u32,
        // The failure was already rendered as a status byte where possible;
        // the chain is still returned to the guest, with nothing used.
        Err(_) => 0,
    };
    queue.add_used(chain, len);
    queue.trigger_interrupt(interrupt);
}

/// The used ring as plain values: identifier, used length, data bytes,
/// status bytes of each entry.
pub open spec fn used_views(s: Seq<UsedChain>) -> Seq<(u16, u32, Seq<u8>, Seq<u8>)> {
    s.map_values(|u: UsedChain| used_view(u))
}

/// Outcome of draining a queue: the used-ring entries appended, in order,
/// and the disk and flush-timer state after.
pub struct QueueDrainOutcome {
    pub entries: Seq<(u16, u32, Seq<u8>, Seq<u8>)>,
    pub disk: Seq<u8>,
    pub timer_armed: bool,
    pub timer_delay: u64,
    pub armed: bool,
}

/// The transition function of a queue drain: each available chain is
/// processed in order, each producing one used-ring entry.
pub open spec fn drain_spec(
    chains: Seq<DescriptorChain>,
    disk: Seq<u8>,
    disk_size: u64,
    read_only: bool,
    id: Option<BlockId>,
    sparse: bool,
    timer_armed: bool,
    timer_delay: u64,
    armed: bool,
) -> QueueDrainOutcome
    decreases chains.len(),
{
    if chains.len() == 0 {
        QueueDrainOutcome { entries: Seq::empty(), disk, timer_armed, timer_delay, armed }
    } else {
        let c = chains[0];
        let p = process_spec(
            c.reader.remaining(),
            c.writer.capacity(),
            disk,
            disk_size,
            read_only,
            id,
            sparse,
            timer_armed,
            timer_delay,
            armed,
        );
        let rest = drain_spec(
            chains.skip(1),
            p.disk,
            disk_size,
            read_only,
            id,
            sparse,
            p.timer_armed,
            p.timer_delay,
            p.armed,
        );
        QueueDrainOutcome {
            entries: seq![(c.id, p.used_len, p.wrote, p.status)] + rest.entries,
            disk: rest.disk,
            timer_armed: rest.timer_armed,
            timer_delay: rest.timer_delay,
            armed: rest.armed,
        }
    }
}

/// Drains the queue on one notification: pops every available chain and
/// processes each in order, never leaving a chain behind.  (A deployment
/// runs one such task per queue and may complete chains concurrently; the
/// used ring then carries the same entries in completion order.)
pub fn handle_queue(
    queue: &mut Queue,
    disk_state: &mut DiskState,
    interrupt: &mut Interrupt,
    flush_timer: &mut FlushTimer,
    flush_timer_armed: &mut bool,
)
    requires
        old(queue).wf(),
        old(disk_state).wf(),
    ensures
        final(queue).wf(),
        final(disk_state).wf(),
        final(queue).size() == old(queue).size(),
        final(queue).avail_chains().len() == 0,
        final(disk_state).read_only == old(disk_state).read_only,
        final(disk_state).id == old(disk_state).id,
        final(disk_state).worker_shared_state == old(disk_state).worker_shared_state,
        final(interrupt).is_config_changed() == old(interrupt).is_config_changed(),
        old(queue).avail_chains().len() > 0 ==> final(interrupt).is_signaled(),
        old(queue).avail_chains().len() == 0 ==> *final(interrupt) == *old(interrupt),
        ({
            let dout = drain_spec(
                old(queue).avail_chains(),
                old(disk_state).contents(),
                old(disk_state).size(),
                old(disk_state).read_only,
                old(disk_state).id,
                old(disk_state).worker_shared_state.sparse,
                old(flush_timer).is_armed(),
                old(flush_timer).delay(),
                *old(flush_timer_armed),
            );
            &&& used_views(final(queue).used_ring()) == used_views(old(queue).used_ring())
                + dout.entries
            &&& final(disk_state).contents() == dout.disk
            &&& final(flush_timer).is_armed() == dout.timer_armed
            &&& final(flush_timer).delay() == dout.timer_delay
            &&& *final(flush_timer_armed) == dout.armed
        }),
{
    let ghost total = drain_spec(
        old(queue).avail_chains(),
        old(disk_state).contents(),
        old(disk_state).size(),
        old(disk_state).read_only,
        old(disk_state).id,
        old(disk_state).worker_shared_state.sparse,
        old(flush_timer).is_armed(),
        old(flush_timer).delay(),
        *old(flush_timer_armed),
    );
    let ghost used0 = old(queue).used_ring().len() as int;
    while !queue.avail_empty()
        invariant
            queue.wf(),
            disk_state.wf(),
            queue.size() == old(queue).size(),
            disk_state.read_only == old(disk_state).read_only,
            disk_state.id == old(disk_state).id,
            disk_state.worker_shared_state == old(disk_state).worker_shared_state,
            interrupt.is_config_changed() == old(interrupt).is_config_changed(),
            queue.avail_chains().len() <= old(queue).avail_chains().len(),
            queue.avail_chains().len() < old(queue).avail_chains().len()
                ==> interrupt.is_signaled(),
            queue.avail_chains().len() == old(queue).avail_chains().len() ==> (*interrupt == *old(
                interrupt,
            ) && queue.avail_chains() == old(queue).avail_chains()),
            used0 == old(queue).used_ring().len() as int,
            used0 <= queue.used_ring().len(),
            queue.used_ring().subrange(0, used0) == old(queue).used_ring(),
            total == ({
                let cur = drain_spec(
                    queue.avail_chains(),
                    disk_state.contents(),
                    disk_state.size(),
                    disk_state.read_only,
                    disk_state.id,
                    disk_state.worker_shared_state.sparse,
                    flush_timer.is_armed(),
                    flush_timer.delay(),
                    *flush_timer_armed,
                );
                QueueDrainOutcome {
                    entries: used_views(queue.used_ring().skip(used0)) + cur.entries,
                    disk: cur.disk,
                    timer_armed: cur.timer_armed,
                    timer_delay: cur.timer_delay,
                    armed: cur.armed,
                }
            }),
        decreases queue.avail_chains().len(),
    {
        let ghost used_pre = queue.used_ring();
        let ghost avail_pre = queue.avail_chains();
        let ghost disk_pre = disk_state.contents();
        let ghost sz = disk_state.size();
        let ghost ro = disk_state.read_only;
        let ghost idg = disk_state.id;
        let ghost sp = disk_state.worker_shared_state.sparse;
        let ghost ta_pre = flush_timer.is_armed();
        let ghost td_pre = flush_timer.delay();
        let ghost a_pre = *flush_timer_armed;
        let c = match queue.pop() {
            Some(c) => c,
            None => {
                proof {
                    assert(false);
                }
                return ;
            },
        };
        let ghost cg = c;
        process_one_chain(queue, c, disk_state, interrupt, flush_timer, flush_timer_armed);
        proof {
            let p = process_spec(
                cg.reader.remaining(),
                cg.writer.capacity(),
                disk_pre,
                sz,
                ro,
                idg,
                sp,
                ta_pre,
                td_pre,
                a_pre,
            );
            let e0 = (cg.id, p.used_len, p.wrote, p.status);
            assert(queue.used_ring().len() == used_pre.len() + 1);
            assert(used_view(queue.used_ring().last()) == e0);
            assert forall|i: int| 0 <= i < used_pre.len() implies queue.used_ring()[i]
                == used_pre[i] by {
                assert(queue.used_ring().subrange(0, used_pre.len() as int)[i] == used_pre[i]);
            };
            assert(0 <= used0 <= used_pre.len());
            assert forall|i: int| 0 <= i < used0 implies queue.used_ring().subrange(0, used0)[i]
                == used_pre.subrange(0, used0)[i] by {
                assert(queue.used_ring().subrange(0, used0)[i] == queue.used_ring()[i]);
                assert(used_pre.subrange(0, used0)[i] == used_pre[i]);
            };
            assert(queue.used_ring().subrange(0, used0) =~= used_pre.subrange(0, used0));
            assert(queue.used_ring().skip(used0) =~= used_pre.skip(used0).push(
                queue.used_ring().last(),
            ));
            assert forall|j: int| 0 <= j < queue.used_ring().skip(used0).len() implies used_views(
                queue.used_ring().skip(used0),
            )[j] == used_views(used_pre.skip(used0)).push(e0)[j] by {
                if j < used_pre.len() - used0 {
                    assert(used_views(queue.used_ring().skip(used0))[j] == used_view(
                        queue.used_ring().skip(used0)[j],
                    ));
                    assert(used_views(used_pre.skip(used0))[j] == used_view(
                        used_pre.skip(used0)[j],
                    ));
                } else {
                    assert(used_views(queue.used_ring().skip(used0))[j] == used_view(
                        queue.used_ring().skip(used0)[j],
                    ));
                    assert(queue.used_ring().skip(used0)[j] == queue.used_ring().last());
                }
            };
            assert(used_views(queue.used_ring().skip(used0)) =~~= used_views(
                used_pre.skip(used0),
            ).push(e0));
            let cur_pre = drain_spec(avail_pre, disk_pre, sz, ro, idg, sp, ta_pre, td_pre, a_pre);
            let rest = drain_spec(
                avail_pre.skip(1),
                p.disk,
                sz,
                ro,
                idg,
                sp,
                p.timer_armed,
                p.timer_delay,
                p.armed,
            );
            assert(cur_pre.entries == seq![e0] + rest.entries);
            assert(queue.avail_chains() == avail_pre.skip(1));
            assert(used_views(used_pre.skip(used0)) + cur_pre.entries =~~= used_views(
                queue.used_ring().skip(used0),
            ) + rest.entries);
        }
    }
    proof {
        assert(used_views(queue.used_ring()) =~~= used_views(old(queue).used_ring())
            + used_views(queue.used_ring().skip(used0)));
        assert(total.entries =~~= used_views(queue.used_ring().skip(used0)));
    }
}

} // verus!
