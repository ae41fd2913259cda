//! A subscriber together with the record of what it was told.
use vstd::prelude::*;

use crate::subscription::{ActionView, QuerySubscriber};

verus! {

/// The only way from a running subscription to its subscriber. It makes one call at a time and
/// keeps a record of the calls, which only proofs can see.
///
/// That the record leaves out no call is a matter of types. Whoever holds a listener reaches the
/// subscriber through [`Listener::update`] and [`Listener::fail`] alone, and these are written for
/// texts of any type: they have no text to make a call with but the ones that they are given.
pub struct Listener<'a, S: ?Sized> {
    subscriber: &'a S,
    told: Ghost<Seq<ActionView>>,
}

impl<'a, S: ?Sized> Listener<'a, S> {
    /// Who is told.
    pub closed spec fn subscriber(&self) -> &'a S {
        self.subscriber
    }

    /// Every call made through this listener, in order.
    pub closed spec fn told(&self) -> Seq<ActionView> {
        self.told@
    }

    /// A listener through which nothing has been told yet.
    pub fn new(subscriber: &'a S) -> (listener: Listener<'a, S>)
        ensures
            listener.subscriber() == subscriber,
            listener.told() == Seq::<ActionView>::empty(),
    {
        Listener { subscriber, told: Ghost(Seq::empty()) }
    }

    /// Tells the subscriber of a new result.
    pub fn update<T: View<V = Seq<char>>>(&mut self, value: T) where S: QuerySubscriber<T>
        ensures
            final(self).subscriber() == old(self).subscriber(),
            final(self).subscriber().updated(value@),
            final(self).told() == old(self).told().push(ActionView::Update(value@)),
    {
        let ghost text = value@;
        self.subscriber.on_update(value);
        proof {
            self.told@ = self.told@.push(ActionView::Update(text));
        }
    }

    /// Tells the subscriber of an error.
    pub fn fail<T: View<V = Seq<char>>>(&mut self, message: T, value: Option<T>) where
        S: QuerySubscriber<T>,

        ensures
            final(self).subscriber() == old(self).subscriber(),
            final(self).subscriber().failed(message@, crate::subscription::viewed_detail(value)),
            final(self).told() == old(self).told().push(
                ActionView::Fail {
                    message: message@,
                    value: crate::subscription::viewed_detail(value),
                },
            ),
            match value {
                Some(detail) => {
                    &&& final(self).subscriber().failed(message@, Some(detail@))
                    &&& final(self).told().last() == (ActionView::Fail {
                        message: message@,
                        value: Some(detail@),
                    })
                },
                None => {
                    &&& final(self).subscriber().failed(message@, None)
                    &&& final(self).told().last() == (ActionView::Fail {
                        message: message@,
                        value: None,
                    })
                },
            },
    {
        let ghost action = ActionView::Fail {
            message: message@,
            value: crate::subscription::viewed_detail(value),
        };
        self.subscriber.on_error(message, value);
        proof {
            self.told@ = self.told@.push(action);
        }
    }
}

} // verus!
