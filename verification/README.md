# transformable_channels

Senders for `std::sync::mpsc` channels that can be derived from one another:
`map` transforms each value before sending it, `filter` discards the values a
predicate rejects, `filter_map` does both, and `tee` splits a pair between two
senders. The library is written in Verus.

Each sender has a spec relation `sends(msg, handovers, res)`: sending `msg`
may end in these hand-overs to the `std` senders behind it (each accepted or
not) and return `res`. A `RawSender`'s relation names the value and the `std`
sender it is handed to (`std_sends`), and `channel` ties that sender to the
receiver returned with it (`std_pair`). Every `send` is proved to meet its
sender's relation and to return `Err` only when the value reached no channel.
The methods that derive a sender state its relation in terms of the sender it
was derived from and of the closure's `ensures`.

Closures need not accept every input: each sender has a predicate
`accepts(msg)`, which `send` requires, saying that every closure on the way
to the `std` sender can be called on what reaches it. A derived sender's
`accepts` is stated from its closure's `requires` and `ensures`.

A `Box<dyn ExtSender<T>>` is an `ExtSender` (`boxed.rs`), so a boxed sender
can send; it cannot be cloned, nor can senders be derived from it. Cloning a
trait object needs a trait method that returns one, and Verus takes no
declaration of a trait method whose result is a trait object. That is also
why `internal_clone` is a method of each sender type rather than of the trait,
and carries no contract.

What is not modelled: the order in time of the two sends of a `tee` (the
relation lists the left half's hand-overs first, but says nothing of when
they happen), how many times a closure is called, and what a `std` receiver
holds.

Layout of `src/`:

- `sender.rs`: the traits `ExtSender`, `CloneAlike` and `TransformableSender`;
- `raw.rs`: `channel` and `RawSender`, which ends in a `std` channel;
- `mapped.rs`, `filtered.rs`, `filter_mapped.rs`, `teed.rs`: the derived senders;
- `laws.rs`: laws relating chains of derived senders;
- `boxed.rs`: `ExtSender` for `Box<dyn ExtSender<T>>`;
- `std_channel.rs`: the trusted wrappers around `std::sync::mpsc` and `Arc`.
