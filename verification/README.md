# soi

A small file-shipping service. A server keeps files in a storage directory;
clients upload files to it (keeping or replacing a stored file of the same
name) and download files from it. Each request is one packet: a command
word, a file name, the file's bytes and their count, framed with bincode.

- `src/` is the verified library: the packet and its wire format (`codec`),
  the server's decisions for each read and request (`server`), the client's
  requests and reconnection rule (`client`), the configuration file
  (`config`), the listening address (`utils`) and the command line (`cli`).
- `app/` is the program around it: sockets, files, tasks and printing.
- `tests/` exercise the library on concrete values.
