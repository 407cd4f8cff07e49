# demosuperimpose_goldsrc

Reading and writing the network messages of GoldSrc (Half-Life) demos, and writing demo files,
with the behaviour of each function stated in a contract and proved.

- `src/le.rs`: little-endian encodings of integers, as byte sequences.
- `src/bits.rs`: bit vectors of the `bitvec` crate, and the trusted calls made into it.
- `src/writer.rs`: byte and bit buffers.
- `src/types.rs`: the messages of the protocol and their numbers.
- `src/netmsg_doer/`: a parser and a writer for each message that the library reads, and for
  each but the user message (whose writer is a stand-in) a law that reading what was written
  gives the message back; bit readers, and the field masks and field bits of delta-encoded
  structures.
- `src/utils.rs`: buttons, entity flags, movement types and weapons, and their codes.
- `src/demo.rs`, `src/demo_writer.rs`: the contents of a demo file and the writer that lays it
  out, with laws on the offsets that the file holds.
- `app/`: what stays outside the proofs: files on disk, reading demos with `hldemo`, the float
  scaling of delta fields, and random numbers.

Floats are held by their IEEE-754 bits in the library.
