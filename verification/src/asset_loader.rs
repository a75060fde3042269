//! The state machine of an asset that loads in the background. The loading thread and
//! its channel belong to the caller, who reports what the channel held.

use vstd::prelude::*;

verus! {

/// Simple FSM for loading assets.
#[derive(PartialEq, Eq, Copy, Clone, Debug, Structural)]
pub enum AssetState {
    /// The data is being loaded from the file system and prepared.
    Buffering,
    /// The data is ready to use.
    Ready,
    /// The asset has been consumed and can't be used anymore.
    Consumed,
}

/// An asset that may be created from the file system.
pub trait LoadableAsset: Sized {
    /// Loads an asset from the disk.
    fn asset_from_file(file: &'static str) -> Self;
}

/// What the loading thread's channel held when it was polled.
pub enum Receipt<T> {
    /// The loaded asset.
    Received(T),
    /// Nothing yet: the thread is still loading.
    Empty,
    /// The thread is gone without sending the asset.
    Disconnected,
}

/// An asset file that loads on a background thread.
pub struct Asset<TAsset> {
    file: &'static str,
    kind: AssetState,
    value: Option<Box<TAsset>>,
}

impl<TAsset> Asset<TAsset> {
    /// The current state of the asset.
    pub closed spec fn spec_state(&self) -> AssetState {
        self.kind
    }

    /// The loaded value, while the asset holds one.
    pub closed spec fn spec_value(&self) -> Option<TAsset> {
        match self.value {
            Some(b) => Some(*b),
            None => None,
        }
    }

    /// The file the asset is loaded from.
    pub closed spec fn spec_file(&self) -> &'static str {
        self.file
    }

    /// An asset holds a value exactly while it is ready.
    pub open spec fn wf(&self) -> bool {
        (self.spec_state() == AssetState::Ready) == (self.spec_value() is Some)
    }

    /// Starts the life of an asset whose loading thread has just been started.
    pub fn load(file: &'static str) -> (asset: Self)
        ensures
            asset.spec_state() == AssetState::Buffering,
            asset.spec_value() is None,
            asset.spec_file() == file,
            asset.wf(),
    {
        Self { file, kind: AssetState::Buffering, value: None }
    }

    /// The current state of the asset.
    pub fn state(&self) -> (state: AssetState)
        ensures
            state == self.spec_state(),
    {
        self.kind
    }

    /// The file of the asset.
    pub fn file(&self) -> (file: &'static str)
        ensures
            file == self.spec_file(),
    {
        self.file
    }

    /// Takes in what the loading thread's channel held. Only a buffering asset looks at it:
    /// a received value makes the asset ready. Returns the state after that. A channel
    /// that is gone while the asset buffers is an error the asset does not handle.
    pub fn try_receive(&mut self, receipt: Receipt<TAsset>) -> (state: AssetState)
        requires
            old(self).spec_state() == AssetState::Buffering ==> !(receipt is Disconnected),
        ensures
            state == final(self).spec_state(),
            final(self).spec_file() == old(self).spec_file(),
            old(self).wf() ==> final(self).wf(),
            match (old(self).spec_state(), receipt) {
                (AssetState::Buffering, Receipt::Received(v)) => final(self).spec_state()
                    == AssetState::Ready && final(self).spec_value() == Some(v),
                _ => final(self).spec_state() == old(self).spec_state() && final(self).spec_value()
                    == old(self).spec_value(),
            },
    {
        if self.kind != AssetState::Buffering {
            return self.kind;
        }
        match receipt {
            Receipt::Received(result) => {
                self.value = Some(Box::new(result));
                self.kind = AssetState::Ready;
            },
            _ => {},
        }
        self.kind
    }

    /// A handle to the asset, while it is ready.
    pub fn asset(&self) -> (asset: Option<&TAsset>)
        ensures
            self.spec_state() == AssetState::Ready && self.wf() ==> asset is Some && *asset.unwrap()
                == self.spec_value().unwrap(),
            self.spec_state() != AssetState::Ready ==> asset is None,
    {
        match self.kind {
            AssetState::Ready => match &self.value {
                Some(b) => Some(&**b),
                None => None,
            },
            _ => None,
        }
    }

    /// A mutable handle to the asset. A buffering asset first takes in what the loading
    /// thread's channel held (see `try_receive`); the handle is there while the asset is
    /// then ready.
    pub fn asset_mut(&mut self, receipt: Receipt<TAsset>) -> (asset: Option<&mut TAsset>)
        requires
            old(self).spec_state() == AssetState::Buffering ==> !(receipt is Disconnected),
        ensures
            ({
                let (state, value) = match (old(self).spec_state(), receipt) {
                    (AssetState::Buffering, Receipt::Received(v)) => (AssetState::Ready, Some(v)),
                    _ => (old(self).spec_state(), old(self).spec_value()),
                };
                &&& asset is Some ==> state == AssetState::Ready
                &&& old(self).wf() ==> (asset is Some) == (state == AssetState::Ready)
                &&& asset is Some ==> *asset.unwrap() == value.unwrap()
                    && final(self).spec_value() == Some(*final(asset.unwrap()))
                &&& asset is None ==> final(self).spec_value() == value
                &&& final(self).spec_state() == state
            }),
            final(self).spec_file() == old(self).spec_file(),
            old(self).wf() ==> final(self).wf(),
    {
        self.try_receive(receipt);
        match self.kind {
            AssetState::Ready => match &mut self.value {
                Some(b) => Some(&mut **b),
                None => None,
            },
            _ => None,
        }
    }

    /// Consumes the asset, taking the value out of it. The asset can't be used anymore.
    pub fn consume(&mut self) -> (value: Option<Box<TAsset>>)
        ensures
            final(self).spec_state() == AssetState::Consumed,
            final(self).spec_value() is None,
            final(self).spec_file() == old(self).spec_file(),
            final(self).wf(),
            match value {
                Some(b) => old(self).spec_value() == Some(*b),
                None => old(self).spec_value() is None,
            },
    {
        self.kind = AssetState::Consumed;
        let value = self.value.take();
        value
    }
}

} // verus!
