//! Tasks handed out through the C interface: a pending resize, or the image it produced.
use vstd::prelude::*;

use std::time::Duration;

use crate::buffer::OwnedImage;
use crate::capi::{task_wait_disposition, wait_status_spec, SCALIX_ERR_FAILED, SCALIX_SUCCESS};
use crate::task::TaskHandle;
use crate::types::{Result, ScalixError};

verus! {

/// Whether `res` is a timeout, after which the task stays pending.
pub open spec fn is_timeout<T>(res: Result<T>) -> bool {
    res matches Err(ScalixError::Timeout)
}

/// A resize handed out to a C caller: either writing into the caller's buffers (`raw`), or
/// into an image the task owns (`owned`), kept once finished until the task is released.
pub struct ScalixTask {
    inner_owned: Option<TaskHandle<OwnedImage>>,
    inner_raw: Option<TaskHandle<()>>,
    result: Option<OwnedImage>,
}

impl ScalixTask {
    /// Pending resize into an owned image.
    pub closed spec fn spec_owned(&self) -> Option<TaskHandle<OwnedImage>> {
        self.inner_owned
    }

    /// Pending resize into the caller's buffers.
    pub closed spec fn spec_raw(&self) -> Option<TaskHandle<()>> {
        self.inner_raw
    }

    /// The finished image, once a wait received it.
    pub closed spec fn spec_result(&self) -> Option<OwnedImage> {
        self.result
    }

    /// A task resizing into an owned image.
    pub fn from_owned(handle: TaskHandle<OwnedImage>) -> (r: Self)
        ensures
            r.spec_owned() == Some(handle),
            r.spec_raw() is None,
            r.spec_result() is None,
    {
        ScalixTask { inner_owned: Some(handle), inner_raw: None, result: None }
    }

    /// A task resizing into the caller's buffers.
    pub fn from_raw(handle: TaskHandle<()>) -> (r: Self)
        ensures
            r.spec_raw() == Some(handle),
            r.spec_owned() is None,
            r.spec_result() is None,
    {
        ScalixTask { inner_owned: None, inner_raw: Some(handle), result: None }
    }

    /// Whether the task has finished: always once its image was received, never when nothing is
    /// pending; otherwise as the pending handle reports.
    pub fn is_ready(&self) -> (r: bool)
        ensures
            self.spec_result() is Some ==> r,
            self.spec_result() is None && self.spec_raw() is None && self.spec_owned() is None ==> !r,
    {
        if self.result.is_some() {
            return true;
        }
        match &self.inner_raw {
            Some(h) => {
                return h.is_ready();
            },
            None => {},
        }
        match &self.inner_owned {
            Some(h) => h.is_ready(),
            None => false,
        }
    }

    /// The finished image, if a wait has received it.
    pub fn result(&self) -> (r: Option<&OwnedImage>)
        ensures
            match r {
                Some(img) => self.spec_result() == Some(*img),
                None => self.spec_result() is None,
            },
    {
        match &self.result {
            Some(img) => Some(img),
            None => None,
        }
    }

    /// Waits for the task, for at most `timeout` when one is given, and returns the C status.
    ///
    /// A pending resize into the caller's buffers is waited on first; a finished image is
    /// reported at once; otherwise the pending resize into an owned image is waited on and its
    /// image kept. A timed-out wait leaves the task pending; any other outcome ends it. A task
    /// with nothing pending and no image reports a failure.
    pub fn wait(&mut self, timeout: Option<Duration>) -> (r: i32)
        ensures
            match old(self).spec_raw() {
                Some(h) => exists|res: Result<()>|
                    {
                        &&& r == #[trigger] wait_status_spec(res)
                        &&& final(self).spec_raw() == (if is_timeout(res) {
                            Some(h)
                        } else {
                            None::<TaskHandle<()>>
                        })
                        &&& final(self).spec_owned() == old(self).spec_owned()
                        &&& final(self).spec_result() == old(self).spec_result()
                    },
                None => match old(self).spec_result() {
                    Some(_) => r == SCALIX_SUCCESS && *final(self) == *old(self),
                    None => match old(self).spec_owned() {
                        None => r == SCALIX_ERR_FAILED && *final(self) == *old(self),
                        Some(h) => exists|res: Result<OwnedImage>|
                            {
                                &&& r == #[trigger] wait_status_spec(res)
                                &&& final(self).spec_raw() is None
                                &&& final(self).spec_owned() == (if is_timeout(res) {
                                    Some(h)
                                } else {
                                    None::<TaskHandle<OwnedImage>>
                                })
                                &&& final(self).spec_result() == (match res {
                                    Ok(img) => Some(img),
                                    Err(_) => None::<OwnedImage>,
                                })
                            },
                    },
                },
            },
    {
        match self.inner_raw.take() {
            Some(h) => {
                let res = h.wait(timeout);
                let (status, pending) = task_wait_disposition(&res);
                if pending {
                    self.inner_raw = Some(h);
                }
                return status;
            },
            None => {},
        }
        if self.result.is_some() {
            return SCALIX_SUCCESS;
        }
        match self.inner_owned.take() {
            None => SCALIX_ERR_FAILED,
            Some(h) => {
                let res = h.wait(timeout);
                let (status, pending) = task_wait_disposition(&res);
                if pending {
                    self.inner_owned = Some(h);
                }
                match res {
                    Ok(img) => {
                        self.result = Some(img);
                    },
                    Err(_) => {},
                }
                status
            },
        }
    }
}

} // verus!
