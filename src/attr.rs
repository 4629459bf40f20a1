use vstd::prelude::*;
use crate::payload::Sendable;

verus! {

/// The four integers of a message queue's attribute structure.
pub struct MQueueAttr {
    flags: i64,
    max_msg: i64,
    msg_size: i64,
    cur_msgs: i64,
}

impl MQueueAttr {
    pub closed spec fn spec_flags(&self) -> i64 {
        self.flags
    }

    pub closed spec fn spec_max_msg(&self) -> i64 {
        self.max_msg
    }

    pub closed spec fn spec_msg_size(&self) -> i64 {
        self.msg_size
    }

    pub closed spec fn spec_cur_msgs(&self) -> i64 {
        self.cur_msgs
    }

    pub fn new(flags: i64, max_msg: i64, msg_size: i64, cur_msgs: i64) -> (r: Self)
        ensures
            r.spec_flags() == flags,
            r.spec_max_msg() == max_msg,
            r.spec_msg_size() == msg_size,
            r.spec_cur_msgs() == cur_msgs,
    {
        Self { flags, max_msg, msg_size, cur_msgs }
    }

    /// Attributes whose message size is the in-memory size of `T`; `None`
    /// when that size does not fit an `i64`.
    pub fn try_new_with_sized_type<T>(flags: i64, max_msg: i64, cur_msgs: i64) -> (r: Option<Self>)
        ensures
            r is Some <==> vstd::layout::size_of::<T>() <= i64::MAX,
            r matches Some(a) ==> {
                &&& a.spec_flags() == flags
                &&& a.spec_max_msg() == max_msg
                &&& a.spec_msg_size() == vstd::layout::size_of::<T>()
                &&& a.spec_cur_msgs() == cur_msgs
            },
    {
        let size_of_t: usize = core::mem::size_of::<T>();
        if size_of_t as u64 > i64::MAX as u64 {
            return None;
        }
        Some(Self { flags, max_msg, msg_size: size_of_t as i64, cur_msgs })
    }

    /// Attributes whose message size is the largest encoding of payload `T`;
    /// `None` when that size does not fit an `i64`.
    pub fn try_new_for_payload<T: Sendable>(flags: i64, max_msg: i64, cur_msgs: i64) -> (r: Option<Self>)
        ensures
            r is Some <==> T::spec_data_size() <= i64::MAX,
            r matches Some(a) ==> {
                &&& a.spec_flags() == flags
                &&& a.spec_max_msg() == max_msg
                &&& a.spec_msg_size() == T::spec_data_size()
                &&& a.spec_cur_msgs() == cur_msgs
            },
    {
        let size: usize = T::data_size();
        if size as u64 > i64::MAX as u64 {
            return None;
        }
        Some(Self { flags, max_msg, msg_size: size as i64, cur_msgs })
    }

    pub fn flags(&self) -> (r: i64)
        ensures
            r == self.spec_flags(),
    {
        self.flags
    }

    pub fn max_msg(&self) -> (r: i64)
        ensures
            r == self.spec_max_msg(),
    {
        self.max_msg
    }

    pub fn msg_size(&self) -> (r: i64)
        ensures
            r == self.spec_msg_size(),
    {
        self.msg_size
    }

    pub fn cur_msgs(&self) -> (r: i64)
        ensures
            r == self.spec_cur_msgs(),
    {
        self.cur_msgs
    }
}

} // verus!
